use coinbar::config::{Coin, Config, LoadAction, LoadError, LoadEvent};
use coinbar::price::{
    change_key, coin_ids, format_change, format_line, format_segment, get_data, price_url,
    CoinData, Entry, FetchError, Field, Segment,
};

fn coin(name: &str, symbol: &str) -> Coin {
    Coin { name: name.to_string(), symbol: symbol.to_string() }
}

fn entry(id: &str, fields: &[(&str, &str)]) -> Entry {
    Entry {
        id: id.to_string(),
        fields: fields
            .iter()
            .map(|(k, t)| Field { key: k.to_string(), text: t.to_string() })
            .collect(),
    }
}

fn bitcoin_config() -> Config {
    Config { vs_currency: "usd".to_string(), coins: vec![coin("bitcoin", "BTC")] }
}

// What the program does with the texts of a coin's numbers before display.
fn shown(data: &CoinData) -> Segment {
    let price: f64 = data.price.parse().unwrap();
    let change: f64 = data.change.parse().unwrap();
    Segment {
        symbol: data.coin.symbol.clone(),
        price: format!("{}", price),
        change: format!("{:.2}", change),
        rising: change > 0.0,
    }
}

fn line_for(config: &Config, resp: &Vec<Entry>) -> Result<String, FetchError> {
    let data = get_data(config, resp)?;
    let segs: Vec<Segment> = data.iter().map(shown).collect();
    Ok(format_line(&segs))
}

#[test]
fn test_get_data() {
    let config = Config::default();
    let resp: Vec<Entry> = Config::default()
        .coins
        .iter()
        .map(|c| entry(&c.name, &[("usd", "1.5"), ("usd_24h_change", "-0.25")]))
        .collect();
    let data = match get_data(&Config::default(), &resp) {
        Ok(data) => data,
        Err(_) => panic!(),
    };
    assert_eq!(data.len(), config.coins.len());
    for i in 0..data.len() {
        assert_eq!(config.coins[i].name, data[i].coin.name);
    }
}

#[test]
fn default_config_lists_nine_coins_against_usd() {
    let config = Config::default();
    assert_eq!(config.vs_currency, "usd");
    let names: Vec<&str> = config.coins.iter().map(|c| c.name.as_str()).collect();
    assert_eq!(
        names,
        vec![
            "bitcoin", "ethereum", "solana", "polkadot", "binancecoin", "avalanche", "luna",
            "fantom", "near"
        ]
    );
    let symbols: Vec<&str> = config.coins.iter().map(|c| c.symbol.as_str()).collect();
    assert_eq!(symbols, vec!["BTC", "ETH", "SOL", "DOT", "BNB", "AVAX", "LUNA", "FTM", "NEAR"]);
}

#[test]
fn request_names_every_coin_in_order() {
    let config = Config {
        vs_currency: "eur".to_string(),
        coins: vec![coin("bitcoin", "BTC"), coin("ethereum", "ETH"), coin("near", "NEAR")],
    };
    assert_eq!(coin_ids(&config), "bitcoin%2Cethereum%2Cnear");
    assert_eq!(
        price_url(&config),
        "https://api.coingecko.com/api/v3/simple/price?ids=bitcoin%2Cethereum%2Cnear&vs_currencies=eur&include_24hr_change=true"
    );
}

#[test]
fn request_for_one_coin_has_no_separator() {
    assert_eq!(coin_ids(&bitcoin_config()), "bitcoin");
    assert_eq!(
        price_url(&bitcoin_config()),
        "https://api.coingecko.com/api/v3/simple/price?ids=bitcoin&vs_currencies=usd&include_24hr_change=true"
    );
}

#[test]
fn change_key_follows_currency() {
    assert_eq!(change_key("usd"), "usd_24h_change");
    assert_eq!(change_key("btc"), "btc_24h_change");
}

#[test]
fn rising_price_is_green_with_plus() {
    let resp = vec![entry("bitcoin", &[("usd", "50000.0"), ("usd_24h_change", "2.5")])];
    assert_eq!(
        line_for(&bitcoin_config(), &resp).unwrap(),
        "BTC: $50000/%{F#21cf5f}+2.50%%{F-}"
    );
}

#[test]
fn falling_price_is_red_without_plus() {
    let resp = vec![entry("bitcoin", &[("usd", "50000.0"), ("usd_24h_change", "-1.2")])];
    assert_eq!(
        line_for(&bitcoin_config(), &resp).unwrap(),
        "BTC: $50000/%{F#ff004b}-1.20%%{F-}"
    );
}

#[test]
fn zero_change_is_red_without_plus() {
    assert_eq!(format_change("0.00", false), "%{F#ff004b}0.00%%{F-}");
    let resp = vec![entry("bitcoin", &[("usd", "10"), ("usd_24h_change", "0.0")])];
    assert_eq!(line_for(&bitcoin_config(), &resp).unwrap(), "BTC: $10/%{F#ff004b}0.00%%{F-}");
}

#[test]
fn missing_second_coin_fails_whole_fetch() {
    let config = Config {
        vs_currency: "usd".to_string(),
        coins: vec![coin("bitcoin", "BTC"), coin("ethereum", "ETH")],
    };
    let resp = vec![entry("bitcoin", &[("usd", "50000.0"), ("usd_24h_change", "2.5")])];
    assert_eq!(get_data(&config, &resp).unwrap_err(), FetchError::Missing);
}

#[test]
fn missing_change_field_fails_fetch() {
    let resp = vec![entry("bitcoin", &[("usd", "50000.0")])];
    assert_eq!(get_data(&bitcoin_config(), &resp).unwrap_err(), FetchError::Missing);
    let resp = vec![entry("bitcoin", &[("usd_24h_change", "1.0")])];
    assert_eq!(get_data(&bitcoin_config(), &resp).unwrap_err(), FetchError::Missing);
}

#[test]
fn data_follows_configuration_order_not_response_order() {
    let config = Config {
        vs_currency: "usd".to_string(),
        coins: vec![coin("ethereum", "ETH"), coin("bitcoin", "BTC")],
    };
    let resp = vec![
        entry("bitcoin", &[("usd_24h_change", "3"), ("usd", "2")]),
        entry("ethereum", &[("usd", "1"), ("usd_24h_change", "-4")]),
    ];
    let data = get_data(&config, &resp).unwrap();
    assert_eq!(data[0].coin.symbol, "ETH");
    assert_eq!(data[0].price, "1");
    assert_eq!(data[0].change, "-4");
    assert_eq!(data[1].coin.symbol, "BTC");
    assert_eq!(data[1].price, "2");
    assert_eq!(data[1].change, "3");
}

#[test]
fn line_has_one_segment_per_coin() {
    let config = Config {
        vs_currency: "usd".to_string(),
        coins: vec![coin("bitcoin", "BTC"), coin("ethereum", "ETH"), coin("solana", "SOL")],
    };
    let resp = vec![
        entry("solana", &[("usd", "20.5"), ("usd_24h_change", "0.004")]),
        entry("bitcoin", &[("usd", "50000.0"), ("usd_24h_change", "2.5")]),
        entry("ethereum", &[("usd", "3000"), ("usd_24h_change", "-1")]),
    ];
    let line = line_for(&config, &resp).unwrap();
    assert_eq!(
        line,
        "BTC: $50000/%{F#21cf5f}+2.50%%{F-} // ETH: $3000/%{F#ff004b}-1.00%%{F-} // SOL: $20.5/%{F#21cf5f}+0.00%%{F-}"
    );
    let parts: Vec<&str> = line.split(" // ").collect();
    assert_eq!(parts.len(), 3);
    assert!(parts[0].starts_with("BTC: $"));
    assert!(parts[1].starts_with("ETH: $"));
    assert!(parts[2].starts_with("SOL: $"));
}

#[test]
fn segment_layout() {
    let s = Segment {
        symbol: "DOT".to_string(),
        price: "6.1".to_string(),
        change: "12.00".to_string(),
        rising: true,
    };
    assert_eq!(format_segment(&s), "DOT: $6.1/%{F#21cf5f}+12.00%%{F-}");
}

#[test]
fn empty_line_for_no_segments() {
    assert_eq!(format_line(&Vec::new()), "");
}

fn path_of(a: LoadAction) -> String {
    match a {
        LoadAction::MakeDir { dir } => format!("mkdir {}", dir),
        LoadAction::Probe { path } => format!("probe {}", path),
        LoadAction::Read { path } => format!("read {}", path),
        LoadAction::WriteDefault { path } => format!("write {}", path),
        LoadAction::Finish { .. } => "finish".to_string(),
    }
}

fn finished(a: LoadAction) -> Result<Config, LoadError> {
    match a {
        LoadAction::Finish { result } => result,
        other => panic!("not finished: {}", path_of(other)),
    }
}

#[test]
fn paths_are_joined_with_one_separator() {
    assert_eq!(Config::get_file_path("/home/u/.config/polybar"), "/home/u/.config/polybar/coins.json");
    assert_eq!(Config::get_file_path("/home/u/"), "/home/u/coins.json");
    assert_eq!(Config::get_file_path(""), "coins.json");
    assert_eq!(Config::get_dir_path("/home/u/.config"), "/home/u/.config/polybar");
}

#[test]
fn load_prefers_config_directory() {
    let a = Config::load(LoadEvent::Start {
        config_dir: Some("/home/u/.config".to_string()),
        home_dir: Some("/home/u".to_string()),
    });
    assert_eq!(path_of(a), "mkdir /home/u/.config/polybar");
    let a = Config::load(LoadEvent::DirReady { dir: "/home/u/.config/polybar".to_string(), ok: true });
    assert_eq!(path_of(a), "probe /home/u/.config/polybar/coins.json");
}

#[test]
fn load_falls_back_to_home() {
    let a = Config::load(LoadEvent::Start { config_dir: None, home_dir: Some("/home/u".to_string()) });
    assert_eq!(path_of(a), "probe /home/u/coins.json");
}

#[test]
fn load_errors() {
    let a = Config::load(LoadEvent::Start { config_dir: None, home_dir: None });
    assert_eq!(finished(a).unwrap_err(), LoadError::NoDirectory);
    let a = Config::load(LoadEvent::DirReady { dir: "/x/polybar".to_string(), ok: false });
    assert_eq!(finished(a).unwrap_err(), LoadError::CreateDir);
    assert_eq!(finished(Config::load(LoadEvent::ReadFailed)).unwrap_err(), LoadError::Open);
    assert_eq!(
        finished(Config::load(LoadEvent::Written { ok: false })).unwrap_err(),
        LoadError::CreateFile
    );
    let empty = Config { vs_currency: "usd".to_string(), coins: Vec::new() };
    assert_eq!(
        finished(Config::load(LoadEvent::Decoded { config: Some(empty) })).unwrap_err(),
        LoadError::Parse
    );
}

#[test]
fn malformed_file_is_read_and_not_rewritten() {
    let a = Config::load(LoadEvent::Probed { path: "/c/coins.json".to_string(), exists: true });
    assert_eq!(path_of(a), "read /c/coins.json");
    let a = Config::load(LoadEvent::Decoded { config: None });
    assert_eq!(finished(a).unwrap_err(), LoadError::Parse);
}

#[test]
fn missing_file_gets_default_written_and_returned() {
    let a = Config::load(LoadEvent::Probed { path: "/c/coins.json".to_string(), exists: false });
    assert_eq!(path_of(a), "write /c/coins.json");
    let config = finished(Config::load(LoadEvent::Written { ok: true })).unwrap();
    let expected = Config::default();
    assert_eq!(config.vs_currency, expected.vs_currency);
    assert_eq!(config.coins.len(), expected.coins.len());
    for (a, b) in config.coins.iter().zip(expected.coins.iter()) {
        assert_eq!(a.name, b.name);
        assert_eq!(a.symbol, b.symbol);
    }
}

#[test]
fn loading_existing_file_twice_gives_same_config() {
    let first = finished(Config::load(LoadEvent::Decoded { config: Some(bitcoin_config()) })).unwrap();
    let second = finished(Config::load(LoadEvent::Decoded { config: Some(bitcoin_config()) })).unwrap();
    assert_eq!(first.vs_currency, second.vs_currency);
    assert_eq!(first.coins.len(), 1);
    assert_eq!(first.coins[0].name, second.coins[0].name);
    assert_eq!(first.coins[0].symbol, second.coins[0].symbol);
}
