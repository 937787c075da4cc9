use vstd::prelude::*;

use crate::config::{Coin, Config, ConfigModel, CoinModel};

verus! {

/// `parts` with `sep` between each two neighbours and nowhere else.
pub open spec fn join_with(parts: Seq<Seq<char>>, sep: Seq<char>) -> Seq<char>
    decreases parts.len(),
{
    if parts.len() == 0 {
        Seq::empty()
    } else if parts.len() == 1 {
        parts[0]
    } else {
        join_with(parts.drop_last(), sep) + sep + parts.last()
    }
}

/// The views of a sequence of strings.
pub open spec fn strings(v: Seq<String>) -> Seq<Seq<char>> {
    v.map_values(|s: String| s@)
}

fn join_parts(parts: &Vec<String>, sep: &str) -> (r: String)
    ensures
        r@ == join_with(strings(parts@), sep@),
{
    let n = parts.len();
    if n == 0 {
        return String::new();
    }
    let mut r = parts[0].clone();
    let mut i: usize = 1;
    proof {
        assert(strings(parts@).subrange(0, 1).len() == 1);
    }
    while i < n
        invariant
            1 <= i <= n,
            n == parts.len(),
            r@ == join_with(strings(parts@).subrange(0, i as int), sep@),
        decreases n - i,
    {
        r.append(sep);
        r.append(parts[i].as_str());
        proof {
            let s = strings(parts@);
            assert(s.subrange(0, i + 1).drop_last() =~= s.subrange(0, i as int));
        }
        i = i + 1;
    }
    proof {
        assert(strings(parts@).subrange(0, n as int) =~= strings(parts@));
    }
    r
}

/// The asset identifiers of `coins`, in order.
pub open spec fn names(coins: Seq<CoinModel>) -> Seq<Seq<char>> {
    coins.map_values(|c: CoinModel| c.name)
}

/// The identifier list of the price request: every coin's name, in
/// configuration order, separated by an encoded comma.
pub open spec fn ids_model(c: ConfigModel) -> Seq<char> {
    join_with(names(c.coins), "%2C"@)
}

/// The one request that asks for the price and 24-hour change of every coin.
pub open spec fn url_model(c: ConfigModel) -> Seq<char> {
    "https://api.coingecko.com/api/v3/simple/price?ids="@ + ids_model(c) + "&vs_currencies="@
        + c.vs_currency + "&include_24hr_change=true"@
}

/// The response key that holds the 24-hour change against `vs_currency`.
pub open spec fn change_key_model(vs_currency: Seq<char>) -> Seq<char> {
    vs_currency + "_24h_change"@
}

/// The identifier list for the price request.
pub fn coin_ids(config: &Config) -> (r: String)
    ensures
        r@ == ids_model(config@),
{
    let mut v: Vec<String> = Vec::new();
    let mut i: usize = 0;
    while i < config.coins.len()
        invariant
            i <= config.coins.len(),
            strings(v@) =~= names(config@.coins).subrange(0, i as int),
        decreases config.coins.len() - i,
    {
        let ghost before = v@;
        v.push(config.coins[i].name.clone());
        proof {
            assert(names(config@.coins)[i as int] == config.coins@[i as int].name@);
            assert(strings(v@) =~= strings(before).push(config.coins@[i as int].name@));
            assert(names(config@.coins).subrange(0, i + 1) =~= names(config@.coins).subrange(
                0,
                i as int,
            ).push(config.coins@[i as int].name@));
        }
        i = i + 1;
    }
    proof {
        assert(names(config@.coins).subrange(0, i as int) =~= names(config@.coins));
    }
    join_parts(&v, "%2C")
}

/// The address of the single request for all of `config`'s coins.
pub fn price_url(config: &Config) -> (r: String)
    ensures
        r@ == url_model(config@),
{
    let mut r = String::from_str("https://api.coingecko.com/api/v3/simple/price?ids=");
    let ids = coin_ids(config);
    r.append(ids.as_str());
    r.append("&vs_currencies=");
    r.append(config.vs_currency.as_str());
    r.append("&include_24hr_change=true");
    r
}

/// The response key for the 24-hour change against `vs_currency`.
pub fn change_key(vs_currency: &str) -> (r: String)
    ensures
        r@ == change_key_model(vs_currency@),
{
    let mut r = String::from_str(vs_currency);
    r.append("_24h_change");
    r
}

/// One member of a coin's entry in the price response: its key and the JSON
/// text of its value.
#[derive(Debug)]
pub struct Field {
    pub key: String,
    pub text: String,
}

/// A coin's entry in the price response: its identifier and its members.
#[derive(Debug)]
pub struct Entry {
    pub id: String,
    pub fields: Vec<Field>,
}

/// The text of the first member of `fields`, from position `i` on, whose key
/// is `key`.
pub open spec fn field_from(fields: Seq<Field>, key: Seq<char>, i: int) -> Option<Seq<char>>
    decreases fields.len() - i,
{
    if i < 0 || i >= fields.len() {
        None
    } else if fields[i].key@ == key {
        Some(fields[i].text@)
    } else {
        field_from(fields, key, i + 1)
    }
}

/// The position of the first entry of `entries`, from position `i` on, for
/// the coin `id`.
pub open spec fn entry_from(entries: Seq<Entry>, id: Seq<char>, i: int) -> Option<int>
    decreases entries.len() - i,
{
    if i < 0 || i >= entries.len() {
        None
    } else if entries[i].id@ == id {
        Some(i)
    } else {
        entry_from(entries, id, i + 1)
    }
}

/// What the response says under `id`, then `key`; `None` where either is
/// missing.
pub open spec fn quote_text(resp: Seq<Entry>, id: Seq<char>, key: Seq<char>) -> Option<Seq<char>> {
    match entry_from(resp, id, 0) {
        Some(j) => field_from(resp[j].fields@, key, 0),
        None => None,
    }
}

/// The response holds a price and a change for the coin `c`.
pub open spec fn quoted(resp: Seq<Entry>, vs_currency: Seq<char>, c: CoinModel) -> bool {
    &&& quote_text(resp, c.name, vs_currency).is_some()
    &&& quote_text(resp, c.name, change_key_model(vs_currency)).is_some()
}

/// The response holds a price and a change for every coin of `config`.
pub open spec fn all_quoted(resp: Seq<Entry>, config: ConfigModel) -> bool {
    forall|i: int|
        0 <= i < config.coins.len() ==> #[trigger] quoted(resp, config.vs_currency, config.coins[i])
}

/// Why no price line could be made.
#[derive(Debug, Clone, Copy, PartialEq, Eq, Structural)]
pub enum FetchError {
    /// The request failed, or its answer was not a JSON document.
    Request,
    /// A coin's price or change is missing from the answer.
    Missing,
    /// A coin's price or change is not a number.
    Number,
}

/// A coin with the JSON texts of its price and its 24-hour change.
#[derive(Debug)]
pub struct CoinData {
    pub coin: Coin,
    pub price: String,
    pub change: String,
}

fn find_field(fields: &Vec<Field>, key: &String) -> (r: Option<String>)
    ensures
        match r {
            Some(t) => field_from(fields@, key@, 0) == Some(t@),
            None => field_from(fields@, key@, 0).is_none(),
        },
{
    let mut i: usize = 0;
    while i < fields.len()
        invariant
            i <= fields.len(),
            field_from(fields@, key@, 0) == field_from(fields@, key@, i as int),
        decreases fields.len() - i,
    {
        if fields[i].key.eq(key) {
            return Some(fields[i].text.clone());
        }
        i = i + 1;
    }
    None
}

fn find_quote(resp: &Vec<Entry>, id: &String, key: &String) -> (r: Option<String>)
    ensures
        match r {
            Some(t) => quote_text(resp@, id@, key@) == Some(t@),
            None => quote_text(resp@, id@, key@).is_none(),
        },
{
    let mut i: usize = 0;
    while i < resp.len()
        invariant
            i <= resp.len(),
            entry_from(resp@, id@, 0) == entry_from(resp@, id@, i as int),
        decreases resp.len() - i,
    {
        if resp[i].id.eq(id) {
            return find_field(&resp[i].fields, key);
        }
        i = i + 1;
    }
    None
}

/// For each coin of `config`, in order, its price and 24-hour change as the
/// response `resp` gives them. Fails with `Missing`, and gives nothing, where
/// any coin lacks either.
pub fn get_data(config: &Config, resp: &Vec<Entry>) -> (r: Result<Vec<CoinData>, FetchError>)
    ensures
        match r {
            Ok(v) => {
                &&& all_quoted(resp@, config@)
                &&& v.len() == config.coins.len()
                &&& forall|i: int|
                    0 <= i < v.len() ==> {
                        &&& (#[trigger] v[i]).coin@ == config@.coins[i]
                        &&& quote_text(resp@, config@.coins[i].name, config@.vs_currency) == Some(
                            v[i].price@,
                        )
                        &&& quote_text(
                            resp@,
                            config@.coins[i].name,
                            change_key_model(config@.vs_currency),
                        ) == Some(v[i].change@)
                    }
            },
            Err(e) => !all_quoted(resp@, config@) && e == FetchError::Missing,
        },
{
    let change_key = change_key(config.vs_currency.as_str());
    let mut v: Vec<CoinData> = Vec::new();
    let mut i: usize = 0;
    while i < config.coins.len()
        invariant
            i <= config.coins.len(),
            v.len() == i,
            change_key@ == change_key_model(config@.vs_currency),
            forall|j: int| 0 <= j < i ==> #[trigger] quoted(resp@, config@.vs_currency, config@.coins[j]),
            forall|j: int|
                0 <= j < v.len() ==> {
                    &&& (#[trigger] v[j]).coin@ == config@.coins[j]
                    &&& quote_text(resp@, config@.coins[j].name, config@.vs_currency) == Some(
                        v[j].price@,
                    )
                    &&& quote_text(
                        resp@,
                        config@.coins[j].name,
                        change_key_model(config@.vs_currency),
                    ) == Some(v[j].change@)
                },
        decreases config.coins.len() - i,
    {
        let coin = &config.coins[i];
        assert(config@.coins[i as int] == coin@);
        let price = match find_quote(resp, &coin.name, &config.vs_currency) {
            Some(t) => t,
            None => {
                assert(!quoted(resp@, config@.vs_currency, config@.coins[i as int]));
                return Err(FetchError::Missing);
            },
        };
        let change = match find_quote(resp, &coin.name, &change_key) {
            Some(t) => t,
            None => {
                assert(!quoted(resp@, config@.vs_currency, config@.coins[i as int]));
                return Err(FetchError::Missing);
            },
        };
        v.push(CoinData { coin: coin.clone(), price, change });
        i = i + 1;
    }
    Ok(v)
}

/// One coin's part of the displayed line: its ticker, its price and change
/// as display text, and whether the change is above zero.
#[derive(Debug)]
pub struct Segment {
    pub symbol: String,
    pub price: String,
    pub change: String,
    pub rising: bool,
}

/// The status-bar marker that colours a rise.
pub open spec fn rise_mark() -> Seq<char> {
    "%{F#21cf5f}"@
}

/// The status-bar marker that colours a fall, or no change.
pub open spec fn fall_mark() -> Seq<char> {
    "%{F#ff004b}"@
}

/// The status-bar marker that ends a colour.
pub open spec fn end_mark() -> Seq<char> {
    "%{F-}"@
}

/// A change in per cent, coloured: a rise gets its `+` and the rise colour;
/// anything else, zero included, is shown as it is in the fall colour.
pub open spec fn change_model(change: Seq<char>, rising: bool) -> Seq<char> {
    if rising {
        rise_mark() + "+"@ + change + "%"@ + end_mark()
    } else {
        fall_mark() + change + "%"@ + end_mark()
    }
}

/// One coin's part of the line: `<symbol>: $<price>/<coloured change>`.
pub open spec fn segment_model(s: Segment) -> Seq<char> {
    s.symbol@ + ": $"@ + s.price@ + "/"@ + change_model(s.change@, s.rising)
}

/// The separator between two coins on the line.
pub open spec fn separator() -> Seq<char> {
    " // "@
}

/// The text of each segment, in order.
pub open spec fn segment_texts(segs: Seq<Segment>) -> Seq<Seq<char>> {
    segs.map_values(|s: Segment| segment_model(s))
}

/// The whole line: every segment in order, separated by `" // "`.
pub open spec fn line_model(segs: Seq<Segment>) -> Seq<char> {
    join_with(segment_texts(segs), separator())
}

/// A change shown in the colour of its direction.
pub fn format_change(change: &str, rising: bool) -> (r: String)
    ensures
        r@ == change_model(change@, rising),
{
    let mut r: String;
    if rising {
        r = String::from_str("%{F#21cf5f}");
        r.append("+");
    } else {
        r = String::from_str("%{F#ff004b}");
    }
    r.append(change);
    r.append("%");
    r.append("%{F-}");
    r
}

/// One coin's part of the line.
pub fn format_segment(s: &Segment) -> (r: String)
    ensures
        r@ == segment_model(*s),
{
    let mut r = s.symbol.clone();
    r.append(": $");
    r.append(s.price.as_str());
    r.append("/");
    let change = format_change(s.change.as_str(), s.rising);
    r.append(change.as_str());
    r
}

/// The line for the status bar: the segments in order, separated by
/// `" // "`, with no separator at either end.
pub fn format_line(segs: &Vec<Segment>) -> (r: String)
    ensures
        r@ == line_model(segs@),
{
    let mut parts: Vec<String> = Vec::new();
    let mut i: usize = 0;
    while i < segs.len()
        invariant
            i <= segs.len(),
            strings(parts@) =~= segment_texts(segs@).subrange(0, i as int),
        decreases segs.len() - i,
    {
        let ghost before = parts@;
        parts.push(format_segment(&segs[i]));
        proof {
            let t = segment_texts(segs@);
            assert(strings(parts@) =~= strings(before).push(t[i as int]));
            assert(t.subrange(0, i + 1) =~= t.subrange(0, i as int).push(t[i as int]));
        }
        i = i + 1;
    }
    proof {
        assert(segment_texts(segs@).subrange(0, i as int) =~= segment_texts(segs@));
    }
    join_parts(&parts, " // ")
}

/// A line made for N >= 1 coins is N segments joined by `" // "`, the i-th
/// beginning with the i-th coin's ticker followed by `": $"`: one segment per
/// coin, in configuration order.
pub proof fn lemma_one_segment_per_coin(config: ConfigModel, segs: Seq<Segment>)
    requires
        config.valid(),
        segs.len() == config.coins.len(),
        forall|i: int| 0 <= i < segs.len() ==> (#[trigger] segs[i]).symbol@ == config.coins[i].symbol,
    ensures
        exists|parts: Seq<Seq<char>>|
            {
                &&& parts.len() == config.coins.len()
                &&& line_model(segs) == join_with(parts, separator())
                &&& forall|i: int|
                    0 <= i < parts.len() ==> (#[trigger] parts[i]).subrange(
                        0,
                        config.coins[i].symbol.len() + 3 as int,
                    ) == config.coins[i].symbol + ": $"@
            },
{
    let parts = segment_texts(segs);
    assert forall|i: int| 0 <= i < parts.len() implies (#[trigger] parts[i]).subrange(
        0,
        config.coins[i].symbol.len() + 3 as int,
    ) == config.coins[i].symbol + ": $"@ by {
        reveal_strlit(": $");
        let head = segs[i].symbol@ + ": $"@;
        assert(parts[i] == head + (segs[i].price@ + "/"@ + change_model(
            segs[i].change@,
            segs[i].rising,
        )));
        assert(parts[i].subrange(0, head.len() as int) =~= head);
    }
    assert(line_model(segs) == join_with(parts, separator()));
}

} // verus!
