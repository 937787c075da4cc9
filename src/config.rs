use vstd::prelude::*;

verus! {

/// One tracked asset: its identifier at the price service and its ticker.
#[derive(Debug)]
pub struct Coin {
    pub name: String,
    pub symbol: String,
}

/// What a `Coin` holds, as sequences of characters.
pub struct CoinModel {
    pub name: Seq<char>,
    pub symbol: Seq<char>,
}

impl View for Coin {
    type V = CoinModel;

    open spec fn view(&self) -> CoinModel {
        CoinModel { name: self.name@, symbol: self.symbol@ }
    }
}

impl Clone for Coin {
    fn clone(&self) -> (r: Self)
        ensures
            r@ == self@,
    {
        Coin { name: self.name.clone(), symbol: self.symbol.clone() }
    }
}

/// The reference currency and the tracked assets, in display order.
#[derive(Debug)]
pub struct Config {
    pub vs_currency: String,
    pub coins: Vec<Coin>,
}

/// What a `Config` holds.
pub struct ConfigModel {
    pub vs_currency: Seq<char>,
    pub coins: Seq<CoinModel>,
}

impl ConfigModel {
    /// A configuration the price request can be built from: at least one coin.
    pub open spec fn valid(self) -> bool {
        self.coins.len() > 0
    }
}

impl View for Config {
    type V = ConfigModel;

    open spec fn view(&self) -> ConfigModel {
        ConfigModel { vs_currency: self.vs_currency@, coins: self.coins@.map_values(|c: Coin| c@) }
    }
}

/// The coin with this identifier and ticker.
pub open spec fn coin_model(name: &str, symbol: &str) -> CoinModel {
    CoinModel { name: name@, symbol: symbol@ }
}

/// The configuration used when none is on disk, or when it cannot be read.
pub open spec fn default_model() -> ConfigModel {
    ConfigModel {
        vs_currency: "usd"@,
        coins: seq![
            coin_model("bitcoin", "BTC"),
            coin_model("ethereum", "ETH"),
            coin_model("solana", "SOL"),
            coin_model("polkadot", "DOT"),
            coin_model("binancecoin", "BNB"),
            coin_model("avalanche", "AVAX"),
            coin_model("luna", "LUNA"),
            coin_model("fantom", "FTM"),
            coin_model("near", "NEAR"),
        ],
    }
}

fn coin(name: &str, symbol: &str) -> (r: Coin)
    ensures
        r@ == coin_model(name, symbol),
{
    Coin { name: String::from_str(name), symbol: String::from_str(symbol) }
}

impl Default for Config {
    fn default() -> (r: Self)
        ensures
            r@ == default_model(),
    {
        let mut coins: Vec<Coin> = Vec::new();
        coins.push(coin("bitcoin", "BTC"));
        coins.push(coin("ethereum", "ETH"));
        coins.push(coin("solana", "SOL"));
        coins.push(coin("polkadot", "DOT"));
        coins.push(coin("binancecoin", "BNB"));
        coins.push(coin("avalanche", "AVAX"));
        coins.push(coin("luna", "LUNA"));
        coins.push(coin("fantom", "FTM"));
        coins.push(coin("near", "NEAR"));
        let r = Config { vs_currency: String::from_str("usd"), coins };
        assert(r@.coins =~= default_model().coins);
        r
    }
}

/// `name` placed inside the directory `dir`: a separator is put between the
/// two unless `dir` is empty or already ends in one.
pub open spec fn path_join(dir: Seq<char>, name: Seq<char>) -> Seq<char> {
    if dir.len() == 0 || dir.last() == '/' {
        dir + name
    } else {
        dir + seq!['/'] + name
    }
}

fn join_path(dir: &str, name: &str) -> (r: String)
    ensures
        r@ == path_join(dir@, name@),
{
    let n = dir.unicode_len();
    let mut r = String::from_str(dir);
    if n == 0 || dir.get_char(n - 1) == '/' {
        r.append(name);
    } else {
        r.append("/");
        proof {
            reveal_strlit("/");
        }
        r.append(name);
    }
    r
}

/// Why a configuration could not be loaded.
#[derive(Debug, Clone, Copy, PartialEq, Eq, Structural)]
pub enum LoadError {
    /// Neither a per-user configuration directory nor a home directory is known.
    NoDirectory,
    /// The configuration directory could not be created.
    CreateDir,
    /// The default configuration file could not be written.
    CreateFile,
    /// The configuration file exists but could not be opened or read.
    Open,
    /// The configuration file is not a well-formed configuration.
    Parse,
}

/// What the host reports back to the loader after each action.
pub enum LoadEvent {
    /// The start of a load: the host's per-user configuration directory and
    /// home directory, where known.
    Start { config_dir: Option<String>, home_dir: Option<String> },
    /// Whether the directory asked for by `MakeDir` exists now.
    DirReady { dir: String, ok: bool },
    /// Whether the file asked about by `Probe` exists.
    Probed { path: String, exists: bool },
    /// The file asked for by `Read` could not be opened or read.
    ReadFailed,
    /// The file asked for by `Read` was decoded: `None` where its text is not
    /// a configuration document.
    Decoded { config: Option<Config> },
    /// Whether the default configuration was written by `WriteDefault`.
    Written { ok: bool },
}

/// What the loader asks the host to do next.
pub enum LoadAction {
    /// Create this directory unless it exists, then report `DirReady`.
    MakeDir { dir: String },
    /// Report with `Probed` whether this file exists.
    Probe { path: String },
    /// Read and decode this file, then report `ReadFailed` or `Decoded`.
    Read { path: String },
    /// Write the default configuration to this file, then report `Written`.
    WriteDefault { path: String },
    /// The load is over.
    Finish { result: Result<Config, LoadError> },
}

/// What a `LoadEvent` holds.
pub enum LoadEventModel {
    Start { config_dir: Option<Seq<char>>, home_dir: Option<Seq<char>> },
    DirReady { dir: Seq<char>, ok: bool },
    Probed { path: Seq<char>, exists: bool },
    ReadFailed,
    Decoded { config: Option<ConfigModel> },
    Written { ok: bool },
}

/// What a `LoadAction` holds.
pub enum LoadActionModel {
    MakeDir { dir: Seq<char> },
    Probe { path: Seq<char> },
    Read { path: Seq<char> },
    WriteDefault { path: Seq<char> },
    Finish { result: Result<ConfigModel, LoadError> },
}

/// The view of an optional string.
pub open spec fn opt_view(o: Option<String>) -> Option<Seq<char>> {
    match o {
        Some(s) => Some(s@),
        None => None,
    }
}

impl View for LoadEvent {
    type V = LoadEventModel;

    open spec fn view(&self) -> LoadEventModel {
        match self {
            LoadEvent::Start { config_dir, home_dir } => LoadEventModel::Start {
                config_dir: opt_view(*config_dir),
                home_dir: opt_view(*home_dir),
            },
            LoadEvent::DirReady { dir, ok } => LoadEventModel::DirReady { dir: dir@, ok: *ok },
            LoadEvent::Probed { path, exists } => LoadEventModel::Probed {
                path: path@,
                exists: *exists,
            },
            LoadEvent::ReadFailed => LoadEventModel::ReadFailed,
            LoadEvent::Decoded { config } => LoadEventModel::Decoded {
                config: match config {
                    Some(c) => Some(c@),
                    None => None,
                },
            },
            LoadEvent::Written { ok } => LoadEventModel::Written { ok: *ok },
        }
    }
}

impl View for LoadAction {
    type V = LoadActionModel;

    open spec fn view(&self) -> LoadActionModel {
        match self {
            LoadAction::MakeDir { dir } => LoadActionModel::MakeDir { dir: dir@ },
            LoadAction::Probe { path } => LoadActionModel::Probe { path: path@ },
            LoadAction::Read { path } => LoadActionModel::Read { path: path@ },
            LoadAction::WriteDefault { path } => LoadActionModel::WriteDefault { path: path@ },
            LoadAction::Finish { result } => LoadActionModel::Finish {
                result: match result {
                    Ok(c) => Ok(c@),
                    Err(e) => Err(*e),
                },
            },
        }
    }
}

/// The directory that holds the configuration inside the per-user
/// configuration directory.
pub open spec fn app_dir(config_dir: Seq<char>) -> Seq<char> {
    path_join(config_dir, "polybar"@)
}

/// The configuration file inside its directory.
pub open spec fn config_file(dir: Seq<char>) -> Seq<char> {
    path_join(dir, "coins.json"@)
}

/// The loader's decision on each event.
pub open spec fn load_model(e: LoadEventModel) -> LoadActionModel {
    match e {
        LoadEventModel::Start { config_dir, home_dir } => match config_dir {
            Some(c) => LoadActionModel::MakeDir { dir: app_dir(c) },
            None => match home_dir {
                Some(h) => LoadActionModel::Probe { path: config_file(h) },
                None => LoadActionModel::Finish { result: Err(LoadError::NoDirectory) },
            },
        },
        LoadEventModel::DirReady { dir, ok } => if ok {
            LoadActionModel::Probe { path: config_file(dir) }
        } else {
            LoadActionModel::Finish { result: Err(LoadError::CreateDir) }
        },
        LoadEventModel::Probed { path, exists } => if exists {
            LoadActionModel::Read { path }
        } else {
            LoadActionModel::WriteDefault { path }
        },
        LoadEventModel::ReadFailed => LoadActionModel::Finish { result: Err(LoadError::Open) },
        LoadEventModel::Decoded { config } => match config {
            Some(c) => if c.valid() {
                LoadActionModel::Finish { result: Ok(c) }
            } else {
                LoadActionModel::Finish { result: Err(LoadError::Parse) }
            },
            None => LoadActionModel::Finish { result: Err(LoadError::Parse) },
        },
        LoadEventModel::Written { ok } => if ok {
            LoadActionModel::Finish { result: Ok(default_model()) }
        } else {
            LoadActionModel::Finish { result: Err(LoadError::CreateFile) }
        },
    }
}

impl Config {
    /// The configuration file inside `dir`.
    pub fn get_file_path(dir: &str) -> (r: String)
        ensures
            r@ == config_file(dir@),
    {
        join_path(dir, "coins.json")
    }

    /// The directory for this program inside the per-user configuration
    /// directory `config_dir`.
    pub fn get_dir_path(config_dir: &str) -> (r: String)
        ensures
            r@ == app_dir(config_dir@),
    {
        join_path(config_dir, "polybar")
    }

    /// One step of loading the configuration: from what the host reported,
    /// the next thing to do. A load begins with `LoadEvent::Start` and runs
    /// until `LoadAction::Finish`. An existing file is read and never
    /// written; a missing one is replaced by the default configuration,
    /// which is then the result without being read back.
    pub fn load(event: LoadEvent) -> (r: LoadAction)
        ensures
            r@ == load_model(event@),
    {
        match event {
            LoadEvent::Start { config_dir, home_dir } => match config_dir {
                Some(c) => LoadAction::MakeDir { dir: Self::get_dir_path(c.as_str()) },
                None => match home_dir {
                    Some(h) => LoadAction::Probe { path: Self::get_file_path(h.as_str()) },
                    None => LoadAction::Finish { result: Err(LoadError::NoDirectory) },
                },
            },
            LoadEvent::DirReady { dir, ok } => if ok {
                LoadAction::Probe { path: Self::get_file_path(dir.as_str()) }
            } else {
                LoadAction::Finish { result: Err(LoadError::CreateDir) }
            },
            LoadEvent::Probed { path, exists } => if exists {
                LoadAction::Read { path }
            } else {
                LoadAction::WriteDefault { path }
            },
            LoadEvent::ReadFailed => LoadAction::Finish { result: Err(LoadError::Open) },
            LoadEvent::Decoded { config } => match config {
                Some(c) => if c.coins.len() > 0 {
                    LoadAction::Finish { result: Ok(c) }
                } else {
                    LoadAction::Finish { result: Err(LoadError::Parse) }
                },
                None => LoadAction::Finish { result: Err(LoadError::Parse) },
            },
            LoadEvent::Written { ok } => if ok {
                LoadAction::Finish { result: Ok(Config::default()) }
            } else {
                LoadAction::Finish { result: Err(LoadError::CreateFile) }
            },
        }
    }
}

/// Loading against a configuration file that is already there reads it and
/// never writes it, and returns what it holds unchanged; so two loads of the
/// same file give equal configurations and neither touches the disk.
pub proof fn lemma_existing_file_is_only_read(path: Seq<char>, c: ConfigModel)
    requires
        c.valid(),
    ensures
        load_model(LoadEventModel::Probed { path, exists: true }) == (LoadActionModel::Read { path }),
        load_model(LoadEventModel::Decoded { config: Some(c) }) == (LoadActionModel::Finish {
            result: Ok(c),
        }),
{
}

/// A configuration file that does not decode is reported as `Parse` and is
/// not replaced: the loader reads it and finishes without asking for a write.
pub proof fn lemma_malformed_file_is_left_alone(path: Seq<char>)
    ensures
        load_model(LoadEventModel::Probed { path, exists: true }) == (LoadActionModel::Read { path }),
        load_model(LoadEventModel::Decoded { config: None }) == (LoadActionModel::Finish {
            result: Err(LoadError::Parse),
        }),
{
}

/// Where no configuration file exists the default is written there and
/// returned; once written, loading that file again gives the default back
/// (provided it decodes to what was written).
pub proof fn lemma_default_round_trip(path: Seq<char>)
    ensures
        load_model(LoadEventModel::Probed { path, exists: false }) == (
        LoadActionModel::WriteDefault { path }),
        load_model(LoadEventModel::Written { ok: true }) == (LoadActionModel::Finish {
            result: Ok(default_model()),
        }),
        load_model(LoadEventModel::Probed { path, exists: true }) == (LoadActionModel::Read { path }),
        load_model(LoadEventModel::Decoded { config: Some(default_model()) }) == (
        LoadActionModel::Finish { result: Ok(default_model()) }),
{
}

} // verus!
