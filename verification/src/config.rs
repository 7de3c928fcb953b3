//! The options of the emulator, their defaults, and how they are read from
//! the text of a TOML file.
use crate::color::{parse_color, Color, ColorError};
use vstd::prelude::*;
use vstd::string::{StringExecFns, StringSliceAdditionalSpecFns};
use vstd::utf8::encode_utf8;

verus! {

/// `toml::map::Map`, the table of a TOML document.
#[verifier::external_type_specification]
#[verifier::external_body]
#[verifier::reject_recursive_types(K)]
#[verifier::reject_recursive_types(V)]
pub struct ExMap<K, V>(toml::map::Map<K, V>);

/// `toml::Value`, a value of a TOML document.
#[verifier::external_type_specification]
#[verifier::external_body]
pub struct ExValue(toml::Value);

/// `toml::de::Error`, the reason a text is no TOML document.
#[verifier::external_type_specification]
#[verifier::external_body]
pub struct ExError(toml::de::Error);

/// What the options read of a value of a table.
pub enum Item {
    Text(Seq<char>),
    Integer(i64),
    /// An array: each element that is a string, and `None` for each that
    /// is none.
    List(Seq<Option<Seq<char>>>),
    Other,
}

/// A value of a table, as far as the options read it.
pub enum Setting {
    Text(String),
    Integer(i64),
    List(Vec<Option<String>>),
    Other,
}

/// The text of an element of an array.
pub open spec fn element(e: Option<String>) -> Option<Seq<char>> {
    match e {
        Some(s) => Some(s@),
        None => None,
    }
}

impl View for Setting {
    type V = Item;

    open spec fn view(&self) -> Item {
        match *self {
            Setting::Text(s) => Item::Text(s@),
            Setting::Integer(v) => Item::Integer(v),
            Setting::List(l) => Item::List(Seq::new(l@.len(), |i: int| element(l@[i]))),
            Setting::Other => Item::Other,
        }
    }
}

/// What a table holds: for each key its value, as far as the options read
/// it.
pub uninterp spec fn table_items(table: toml::map::Map<String, toml::Value>) -> Map<Seq<char>, Item>;

/// What a text holds as a TOML document: its top-level table, or `None`
/// where the text is no TOML document.
pub uninterp spec fn toml_parsed(text: Seq<char>) -> Option<Map<Seq<char>, Item>>;

/// `str::parse::<toml::Table>`: the table of a TOML document, or the
/// reason the text is none. The outcome depends on the text alone.
#[verifier::external_body]
fn parse_table(text: &str) -> (r: Result<toml::map::Map<String, toml::Value>, toml::de::Error>)
    ensures
        match r {
            Ok(table) => toml_parsed(text@) == Some(table_items(table)),
            Err(_) => toml_parsed(text@) is None,
        },
{
    text.parse::<toml::Table>()
}

/// `toml::map::Map::get`: the value under `key`, if there is one. A string,
/// an integer and an array are handed out as such, an array with each of
/// its elements as `toml::Value::as_str` gives it.
#[verifier::external_body]
fn lookup(table: &toml::map::Map<String, toml::Value>, key: &str) -> (r: Option<Setting>)
    ensures
        match r {
            Some(setting) => table_items(*table).contains_key(key@) && table_items(*table)[key@]
                == setting@,
            None => !table_items(*table).contains_key(key@),
        },
{
    table.get(key).map(
        |value|
            match value {
                toml::Value::String(s) => Setting::Text(s.clone()),
                toml::Value::Integer(i) => Setting::Integer(*i),
                toml::Value::Array(a) => Setting::List(
                    a.iter().map(|v| v.as_str().map(|s| s.to_string())).collect(),
                ),
                _ => Setting::Other,
            },
    )
}

/// Why a text gives no options.
#[derive(Debug, Clone, Copy, PartialEq, Eq, Structural)]
pub enum ConfigError {
    /// The text is no TOML document.
    Syntax,
    /// A colour is not in `rr-gg-bb` notation.
    Color(ColorError),
}

pub struct Config {
    pub colors: Vec<Color>,
    pub tab_max: usize,
    pub scrollback: usize,
    pub font: String,
    pub bell: String,
    pub fg: Color,
    pub bg: Color,
}

/// The options as a value.
pub struct Options {
    pub colors: Seq<Color>,
    pub tab_max: usize,
    pub scrollback: usize,
    pub font: Seq<char>,
    pub bell: Seq<char>,
    pub fg: Color,
    pub bg: Color,
}

impl View for Config {
    type V = Options;

    open spec fn view(&self) -> Options {
        Options {
            colors: self.colors@,
            tab_max: self.tab_max,
            scrollback: self.scrollback,
            font: self.font@,
            bell: self.bell@,
            fg: self.fg,
            bg: self.bg,
        }
    }
}

/// The text under `key`, or `default` where the key is absent or its value
/// is no string.
pub open spec fn text_or(items: Map<Seq<char>, Item>, key: Seq<char>, default: Seq<char>) -> Seq<
    char,
> {
    if items.contains_key(key) {
        match items[key] {
            Item::Text(s) => s,
            _ => default,
        }
    } else {
        default
    }
}

/// The number under `key`: `default` where the key is absent, zero where
/// its value is no integer, and else the integer cut to the machine's word.
pub open spec fn size_or(items: Map<Seq<char>, Item>, key: Seq<char>, default: usize) -> usize {
    if items.contains_key(key) {
        match items[key] {
            Item::Integer(v) => v as usize,
            _ => 0,
        }
    } else {
        default
    }
}

/// The palette that is used where the document names none.
pub open spec fn default_names() -> Seq<Seq<char>> {
    seq![
        "28-28-28"@,
        "cc-24-1d"@,
        "98-97-1a"@,
        "d6-5d-0e"@,
        "45-85-88"@,
        "b1-62-86"@,
        "83-a5-98"@,
        "eb-db-b2"@,
    ]
}

/// The text of an element of the palette: empty for one that is no string.
pub open spec fn name_of(e: Option<Seq<char>>) -> Seq<char> {
    match e {
        Some(s) => s,
        None => Seq::empty(),
    }
}

/// The names of the palette: the elements under `colors`, none at all where
/// that is no array, and the default palette where the key is absent.
pub open spec fn color_names(items: Map<Seq<char>, Item>) -> Seq<Seq<char>> {
    if items.contains_key("colors"@) {
        match items["colors"@] {
            Item::List(l) => Seq::new(l.len(), |i: int| name_of(l[i])),
            _ => Seq::empty(),
        }
    } else {
        default_names()
    }
}

/// The colours that the first `upto` names denote, or the error of the
/// first name that denotes none.
pub open spec fn colors_of(names: Seq<Seq<char>>, upto: int) -> Result<Seq<Color>, ColorError>
    decreases upto,
{
    if upto <= 0 {
        Ok(Seq::empty())
    } else {
        match colors_of(names, upto - 1) {
            Err(e) => Err(e),
            Ok(colors) => match parse_color(encode_utf8(names[upto - 1])) {
                Err(e) => Err(e),
                Ok(c) => Ok(colors.push(c)),
            },
        }
    }
}

/// The options that a table gives. The foreground is read first, then the
/// background, then the palette; the first colour that is none decides the
/// error.
pub open spec fn options_of(items: Map<Seq<char>, Item>) -> Result<Options, ConfigError> {
    let names = color_names(items);
    match parse_color(encode_utf8(text_or(items, "foreground"@, "d7-e0-da"@))) {
        Err(e) => Err(ConfigError::Color(e)),
        Ok(fg) => match parse_color(encode_utf8(text_or(items, "background"@, "0d-16-17"@))) {
            Err(e) => Err(ConfigError::Color(e)),
            Ok(bg) => match colors_of(names, names.len() as int) {
                Err(e) => Err(ConfigError::Color(e)),
                Ok(colors) => Ok(
                    Options {
                        colors,
                        tab_max: size_or(items, "tab_max"@, 400),
                        scrollback: size_or(items, "scrollback"@, 400),
                        font: text_or(items, "font"@, "Iosevka Nerd Font Mono:style=Regular"@),
                        bell: text_or(items, "bell"@, "assets/pluh.wav"@),
                        fg,
                        bg,
                    },
                ),
            },
        },
    }
}

/// The options in force without a document.
pub open spec fn default_options() -> Result<Options, ConfigError> {
    options_of(Map::empty())
}

/// The options that the text of a file gives, and the defaults without a
/// file.
pub open spec fn loaded(content: Option<Seq<char>>) -> Result<Options, ConfigError> {
    match content {
        None => default_options(),
        Some(text) => match toml_parsed(text) {
            None => Err(ConfigError::Syntax),
            Some(items) => options_of(items),
        },
    }
}

/// Whether `r` is `wanted`, the options by their value.
pub open spec fn gives(r: Result<Config, ConfigError>, wanted: Result<Options, ConfigError>) -> bool {
    match r {
        Ok(config) => wanted == Ok::<Options, ConfigError>(config@),
        Err(e) => wanted == Err::<Options, ConfigError>(e),
    }
}

/// The names of the default palette.
fn standard_names() -> (names: Vec<String>)
    ensures
        names@.len() == 8,
        forall|i: int| 0 <= i < 8 ==> (#[trigger] names@[i])@ == default_names()[i],
{
    let mut names: Vec<String> = Vec::new();
    names.push(String::from_str("28-28-28"));
    names.push(String::from_str("cc-24-1d"));
    names.push(String::from_str("98-97-1a"));
    names.push(String::from_str("d6-5d-0e"));
    names.push(String::from_str("45-85-88"));
    names.push(String::from_str("b1-62-86"));
    names.push(String::from_str("83-a5-98"));
    names.push(String::from_str("eb-db-b2"));
    names
}

impl Config {
    /// The text under `key`, or `default`.
    pub fn get_str(found: Option<Setting>, default: &str) -> (text: String)
        ensures
            text@ == (match found {
                Some(Setting::Text(s)) => s@,
                _ => default@,
            }),
    {
        match found {
            Some(Setting::Text(s)) => s,
            _ => String::from_str(default),
        }
    }

    /// The number under `key`, or `default`.
    pub fn get_int(found: Option<Setting>, default: usize) -> (n: usize)
        ensures
            n == (match found {
                Some(Setting::Integer(v)) => v as usize,
                Some(_) => 0usize,
                None => default,
            }),
    {
        match found {
            Some(Setting::Integer(v)) => {
                #[verifier::truncate]
                (v as usize)
            },
            Some(_) => 0,
            None => default,
        }
    }

    /// The names of the palette.
    pub fn get_colors(found: Option<Setting>) -> (names: Vec<String>)
        ensures
            names@.len() == (match found {
                Some(Setting::List(l)) => l@.len(),
                Some(_) => 0,
                None => 8,
            }),
            forall|i: int|
                0 <= i < names@.len() ==> (#[trigger] names@[i])@ == (match found {
                    Some(Setting::List(l)) => name_of(element(l@[i])),
                    Some(_) => Seq::empty(),
                    None => default_names()[i],
                }),
    {
        match found {
            Some(Setting::List(list)) => {
                let mut names: Vec<String> = Vec::new();
                let mut i: usize = 0;
                while i < list.len()
                    invariant
                        i <= list.len(),
                        names@.len() == i,
                        forall|k: int|
                            0 <= k < i ==> (#[trigger] names@[k])@ == name_of(element(list@[k])),
                    decreases list.len() - i,
                {
                    let name = match &list[i] {
                        Some(s) => s.clone(),
                        None => String::new(),
                    };
                    names.push(name);
                    i += 1;
                }
                names
            },
            Some(_) => Vec::new(),
            None => standard_names(),
        }
    }

    /// The colours that the names denote.
    pub fn load_colors(names: &Vec<String>) -> (r: Result<Vec<Color>, ColorError>)
        ensures
            match r {
                Ok(colors) => colors_of(
                    Seq::new(names@.len(), |i: int| names@[i]@),
                    names@.len() as int,
                ) == Ok::<Seq<Color>, ColorError>(colors@),
                Err(e) => colors_of(
                    Seq::new(names@.len(), |i: int| names@[i]@),
                    names@.len() as int,
                ) == Err::<Seq<Color>, ColorError>(e),
            },
    {
        let ghost all = Seq::new(names@.len(), |i: int| names@[i]@);
        let mut colors: Vec<Color> = Vec::new();
        let mut i: usize = 0;
        while i < names.len()
            invariant
                i <= names.len(),
                all == Seq::new(names@.len(), |i: int| names@[i]@),
                colors_of(all, i as int) == Ok::<Seq<Color>, ColorError>(colors@),
            decreases names.len() - i,
        {
            assert(all[i as int] == names@[i as int]@);
            match Color::from_str(names[i].as_str()) {
                Ok(c) => {
                    colors.push(c);
                },
                Err(e) => {
                    proof {
                        lemma_colors_error_stays(all, i + 1, names@.len() as int);
                    }
                    return Err(e);
                },
            }
            i += 1;
        }
        Ok(colors)
    }

    /// The options that a table gives.
    pub fn from_table(table: &toml::map::Map<String, toml::Value>) -> (r: Result<
        Config,
        ConfigError,
    >)
        ensures
            gives(r, options_of(table_items(*table))),
    {
        let ghost items = table_items(*table);
        let font = Config::get_str(lookup(table, "font"), "Iosevka Nerd Font Mono:style=Regular");
        let bell = Config::get_str(lookup(table, "bell"), "assets/pluh.wav");
        let tab_max = Config::get_int(lookup(table, "tab_max"), 400);
        let scrollback = Config::get_int(lookup(table, "scrollback"), 400);
        let foreground = Config::get_str(lookup(table, "foreground"), "d7-e0-da");
        let background = Config::get_str(lookup(table, "background"), "0d-16-17");
        let names = Config::get_colors(lookup(table, "colors"));
        assert(Seq::new(names@.len(), |i: int| names@[i]@) =~= color_names(items));
        Config::assemble(foreground, background, names, tab_max, scrollback, font, bell)
    }

    /// The options from their parts, the colours still in notation.
    fn assemble(
        foreground: String,
        background: String,
        names: Vec<String>,
        tab_max: usize,
        scrollback: usize,
        font: String,
        bell: String,
    ) -> (r: Result<Config, ConfigError>)
        ensures
            gives(
                r,
                match parse_color(encode_utf8(foreground@)) {
                    Err(e) => Err(ConfigError::Color(e)),
                    Ok(fg) => match parse_color(encode_utf8(background@)) {
                        Err(e) => Err(ConfigError::Color(e)),
                        Ok(bg) => match colors_of(
                            Seq::new(names@.len(), |i: int| names@[i]@),
                            names@.len() as int,
                        ) {
                            Err(e) => Err(ConfigError::Color(e)),
                            Ok(colors) => Ok(
                                Options {
                                    colors,
                                    tab_max,
                                    scrollback,
                                    font: font@,
                                    bell: bell@,
                                    fg,
                                    bg,
                                },
                            ),
                        },
                    },
                },
            ),
    {
        let fg = match Color::from_str(foreground.as_str()) {
            Ok(c) => c,
            Err(e) => {
                return Err(ConfigError::Color(e));
            },
        };
        let bg = match Color::from_str(background.as_str()) {
            Ok(c) => c,
            Err(e) => {
                return Err(ConfigError::Color(e));
            },
        };
        let colors = match Config::load_colors(&names) {
            Ok(c) => c,
            Err(e) => {
                return Err(ConfigError::Color(e));
            },
        };
        Ok(Config { colors, tab_max, scrollback, font, bell, fg, bg })
    }

    /// The options in force without a document.
    pub fn standard() -> (r: Result<Config, ConfigError>)
        ensures
            gives(r, default_options()),
    {
        let names = standard_names();
        assert(Seq::new(names@.len(), |i: int| names@[i]@) =~= color_names(Map::empty()));
        Config::assemble(
            String::from_str("d7-e0-da"),
            String::from_str("0d-16-17"),
            names,
            400,
            400,
            String::from_str("Iosevka Nerd Font Mono:style=Regular"),
            String::from_str("assets/pluh.wav"),
        )
    }

    /// The options that the text of the configuration file gives; the
    /// defaults where there is no such file.
    pub fn load(content: Option<&str>) -> (r: Result<Config, ConfigError>)
        ensures
            gives(
                r,
                loaded(
                    match content {
                        Some(text) => Some(text@),
                        None => None,
                    },
                ),
            ),
    {
        match content {
            None => Config::standard(),
            Some(text) => match parse_table(text) {
                Ok(table) => Config::from_table(&table),
                Err(_) => Err(ConfigError::Syntax),
            },
        }
    }
}

/// Once a name denotes no colour, no longer list of names gives a palette,
/// and for the same reason.
pub proof fn lemma_colors_error_stays(names: Seq<Seq<char>>, n: int, upto: int)
    requires
        0 <= n <= upto,
    ensures
        colors_of(names, n) is Err ==> colors_of(names, upto) == colors_of(names, n),
    decreases upto - n,
{
    if n < upto {
        lemma_colors_error_stays(names, n + 1, upto);
    }
}

} // verus!
