//! The bridge's configuration.
//!
//! The configuration comes from an ini document:
//!
//! ```text
//! [mqtt]
//! host=broker.example
//! port=1883
//! [bluetooth]
//! adapters=hci0,hci1
//! ```
//!
//! The host and the port are required. The list of adapters may be empty or
//! missing: then every adapter is admitted.
//!
//! `Config::read` takes the text of such a document. The document itself is
//! parsed and looked into by `configparser`; what this module claims of that
//! crate stands at the items below `ExIni`, and nothing of it is proved here.
//! What is made of the three values that the lookups give is proved:
//! `Config::build_config` and `split_adapters`.

use vstd::prelude::*;
use vstd::string::StringExecFns;
use vstd::string::StrSliceExecFns;
use configparser::ini::Ini;
use crate::text::{chars_of, law_trimmed_is_a_bare_piece, trim_bounds, trimmed, white_space};

verus! {

/// The reason given for a document without a host.
pub const MISSING_HOST: &'static str = "Missing 'host' in [mqtt] block";

/// The reason given for a document without a port.
pub const MISSING_PORT: &'static str = "Missing 'port' in [mqtt] block";

/// The reason given for a port that no 16-bit number holds.
pub const INVALID_PORT: &'static str = "Invalid mqtt port";

/// The longest text that `Config::read` takes, in characters. The parser numbers
/// the lines of a text with a 32-bit counter; a text of this length has fewer
/// lines than the counter can hold.
pub const MAX_TEXT_LEN: usize = 0x7FFF_0000;

/// What follows the reason when a document cannot be used.
pub const FORMAT_HINT: &'static str =
    ".\nHint: Format must be:\n[mqtt]\nhost=xxx\nport=xxx\n[bluetooth]\nadapters=hci1,xxx\n";

/// Where the broker is and which adapters may be used.
#[derive(Debug)]
pub struct Config {
    pub mqtt_host: String,
    pub mqtt_port: u16,
    pub bt_adapters: Vec<String>,
}

/// A configuration as the contracts see it.
pub struct ConfigModel {
    pub mqtt_host: Seq<char>,
    pub mqtt_port: u16,
    pub bt_adapters: Seq<Seq<char>>,
}

/// An ini document with its settings. Nothing of its inside is visible here.
#[verifier::external_type_specification]
#[verifier::external_body]
pub struct ExIni(Ini);

/// Whether the document has the settings that `Ini::new` gives it. Under these
/// a lookup that finds nothing in its section does not go on to the default
/// section, and no value runs over more than one line.
pub uninterp spec fn ini_default_settings(config: Ini) -> bool;

/// What `Ini::read` makes of a text in a document with the default settings:
/// the document afterwards, or the parser's words for what is wrong with the
/// text. Two documents are the same here where `==` of `Ini` holds of them.
pub uninterp spec fn ini_read_result(input: Seq<char>) -> Result<Ini, Seq<char>>;

/// What `Ini::get` returns for a section and a key of a document.
pub uninterp spec fn ini_value(config: Ini, section: Seq<char>, key: Seq<char>) -> Option<
    Seq<char>,
>;

/// What `Ini::getint` returns for a section and a key of a document.
pub uninterp spec fn ini_int(config: Ini, section: Seq<char>, key: Seq<char>) -> Result<
    Option<i64>,
    Seq<char>,
>;

/// `Ini::new`: an empty document with the default settings.
#[verifier::external_body]
fn ini_new() -> (config: Ini)
    ensures
        ini_default_settings(config),
{
    Ini::new()
}

/// `Ini::read`: parses the text under the settings of the document and, where
/// the text is well formed, replaces what the document held by what the text
/// says. The settings stay as they were, whatever the outcome. Under the
/// default settings the outcome depends on the text alone, so the contract
/// names it `ini_read_result`; under others it would also depend on them, and
/// where values may run over several lines on the line ending of the platform.
/// The parser counts the lines of the text in 32 bits, hence the limit on its
/// length.
#[verifier::external_body]
fn ini_read(config: &mut Ini, input: String) -> (outcome: Result<(), String>)
    requires
        ini_default_settings(*old(config)),
        input@.len() <= MAX_TEXT_LEN,
    ensures
        ini_default_settings(*final(config)),
        match outcome {
            Ok(_) => ini_read_result(input@) == Ok::<Ini, Seq<char>>(*final(config)),
            Err(why) => ini_read_result(input@) == Err::<Ini, Seq<char>>(why@),
        },
{
    match config.read(input) {
        Ok(_) => Ok(()),
        Err(why) => Err(why),
    }
}

/// `Ini::get`: the value stored under the key of the section, none where the
/// document holds no such value. It reads the document and nothing else, so the
/// contract names the result `ini_value` and claims nothing more of it.
#[verifier::external_body]
fn ini_get(config: &Ini, section: &str, key: &str) -> (value: Option<String>)
    ensures
        match value {
            Some(text) => ini_value(*config, section@, key@) == Some(text@),
            None => ini_value(*config, section@, key@) is None,
        },
{
    config.get(section, key)
}

/// `Ini::getint`: the value stored under the key of the section, read as a
/// signed integer; none where the document holds no such value, and an error
/// with the reason where the value is no integer. It reads the document and
/// nothing else, so the contract names the result `ini_int` and claims nothing
/// more of it. In a document whose lookups go on to the default section the
/// call may never return, so only a document with the default settings is
/// admitted.
#[verifier::external_body]
fn ini_getint(config: &Ini, section: &str, key: &str) -> (value: Result<Option<i64>, String>)
    requires
        ini_default_settings(*config),
    ensures
        match value {
            Ok(number) => ini_int(*config, section@, key@) == Ok::<Option<i64>, Seq<char>>(number),
            Err(reason) => ini_int(*config, section@, key@) == Err::<Option<i64>, Seq<char>>(
                reason@,
            ),
        },
{
    config.getint(section, key)
}

/// The views of the strings.
pub open spec fn names_of(names: Seq<String>) -> Seq<Seq<char>> {
    names.map_values(|name: String| name@)
}

/// Where the first comma stands; the length where there is none.
pub open spec fn first_comma(s: Seq<char>) -> int
    decreases s.len(),
{
    if s.len() == 0 {
        0
    } else if s.first() == ',' {
        0
    } else {
        1 + first_comma(s.drop_first())
    }
}

/// The adapter names in a list: the parts between the commas, each without the
/// white space around it, the empty ones left out.
pub open spec fn adapter_names(s: Seq<char>) -> Seq<Seq<char>>
    decreases s.len(),
{
    let cut = first_comma(s);
    let name = trimmed(s.take(cut));
    let rest = if 0 <= cut < s.len() {
        adapter_names(s.skip(cut + 1))
    } else {
        Seq::empty()
    };
    if name.len() == 0 {
        rest
    } else {
        seq![name] + rest
    }
}

/// Whether an adapter of this name may be used under the given allow-list: an
/// empty list admits every adapter, any other list only the names it holds.
pub open spec fn adapter_allowed(bt_adapters: Seq<Seq<char>>, adapter_name: Seq<char>) -> bool {
    bt_adapters.len() == 0 || bt_adapters.contains(adapter_name)
}

/// The list of adapters that a document holds: the empty one where it holds none.
pub open spec fn list_of(adapters: Option<Seq<char>>) -> Seq<char> {
    match adapters {
        Some(list) => list,
        None => Seq::empty(),
    }
}

/// The configuration that the three values of a document make, or the reason
/// why they make none. The reasons come in this order: no host; a port that is
/// no integer; no port; a port outside of 0 to 65535. A document without a list
/// of adapters is taken as one with an empty list.
pub open spec fn config_from(
    host: Option<Seq<char>>,
    port: Result<Option<i64>, Seq<char>>,
    adapters: Option<Seq<char>>,
) -> Result<ConfigModel, Seq<char>> {
    match (host, port) {
        (None, _) => Err(MISSING_HOST@),
        (Some(_), Err(reason)) => Err(reason),
        (Some(_), Ok(None)) => Err(MISSING_PORT@),
        (Some(mqtt_host), Ok(Some(number))) => if 0 <= number <= 65535 {
            Ok(
                ConfigModel {
                    mqtt_host,
                    mqtt_port: number as u16,
                    bt_adapters: adapter_names(list_of(adapters)),
                },
            )
        } else {
            Err(INVALID_PORT@)
        },
    }
}

/// The configuration in a document, or the reason why it holds none.
pub open spec fn config_in(config: Ini) -> Result<ConfigModel, Seq<char>> {
    config_from(
        ini_value(config, "mqtt"@, "host"@),
        ini_int(config, "mqtt"@, "port"@),
        ini_value(config, "bluetooth"@, "adapters"@),
    )
}

/// The outcome with the hint at the expected format after the reason.
pub open spec fn with_hint(outcome: Result<ConfigModel, Seq<char>>) -> Result<
    ConfigModel,
    Seq<char>,
> {
    match outcome {
        Ok(model) => Ok(model),
        Err(reason) => Err(reason + FORMAT_HINT@),
    }
}

/// The configuration that a text holds: that of the document that the text
/// makes, or the reason, with the hint, why the document holds none; the
/// parser's words where the text is no ini document.
pub open spec fn config_in_text(text: Seq<char>) -> Result<ConfigModel, Seq<char>> {
    match ini_read_result(text) {
        Ok(document) => with_hint(config_in(document)),
        Err(why) => Err(why),
    }
}

/// Whether the result is what the contracts expect of it.
pub open spec fn agrees(result: Result<Config, String>, expected: Result<ConfigModel, Seq<char>>)
    -> bool {
    match (result, expected) {
        (Ok(config), Ok(model)) => config@ == model,
        (Err(reason), Err(text)) => reason@ == text,
        _ => false,
    }
}

/// The view of an optional string.
pub open spec fn text_of(value: Option<String>) -> Option<Seq<char>> {
    match value {
        Some(text) => Some(text@),
        None => None,
    }
}

/// The view of a number that may have failed to parse.
pub open spec fn number_of(value: Result<Option<i64>, String>) -> Result<Option<i64>, Seq<char>> {
    match value {
        Ok(number) => Ok(number),
        Err(reason) => Err(reason@),
    }
}

proof fn lemma_first_comma(s: Seq<char>, at: int)
    requires
        0 <= at <= s.len(),
        forall|k: int| 0 <= k < at ==> s[k] != ',',
        at < s.len() ==> s[at] == ',',
    ensures
        first_comma(s) == at,
    decreases s.len(),
{
    if at > 0 {
        lemma_first_comma(s.drop_first(), at - 1);
    }
}

proof fn lemma_before_first_comma(s: Seq<char>)
    ensures
        0 <= first_comma(s) <= s.len(),
        forall|k: int| 0 <= k < first_comma(s) ==> s[k] != ',',
        first_comma(s) < s.len() ==> s[first_comma(s)] == ',',
    decreases s.len(),
{
    if s.len() > 0 && s.first() != ',' {
        let rest = s.drop_first();
        lemma_before_first_comma(rest);
        assert forall|k: int| 0 <= k < first_comma(s) implies s[k] != ',' by {
            if k > 0 {
                assert(s[k] == rest[k - 1]);
            }
        }
    }
}

/// Every adapter name of a list is a trimmed part of it: it is not empty, it
/// holds no comma, and it neither begins nor ends with white space.
pub proof fn law_adapter_names_are_bare(s: Seq<char>, i: int)
    requires
        0 <= i < adapter_names(s).len(),
    ensures
        adapter_names(s)[i].len() > 0,
        !adapter_names(s)[i].contains(','),
        !white_space(adapter_names(s)[i].first()),
        !white_space(adapter_names(s)[i].last()),
    decreases s.len(),
{
    let cut = first_comma(s);
    let part = s.take(cut);
    let name = trimmed(part);
    lemma_before_first_comma(s);
    if name.len() > 0 && i == 0 {
        law_trimmed_is_a_bare_piece(part);
        let (from, to) = choose|from: int, to: int|
            0 <= from <= to <= part.len() && name == #[trigger] part.subrange(from, to);
        assert forall|k: int| 0 <= k < name.len() implies name[k] != ',' by {
            assert(name[k] == part[from + k]);
        }
    } else {
        let rest = adapter_names(s.skip(cut + 1));
        if name.len() > 0 {
            assert(adapter_names(s)[i] == rest[i - 1]);
            law_adapter_names_are_bare(s.skip(cut + 1), i - 1);
        } else {
            law_adapter_names_are_bare(s.skip(cut + 1), i);
        }
    }
}

/// Splits a list of adapter names at its commas.
pub fn split_adapters(adapters: &str) -> (names: Vec<String>)
    ensures
        names_of(names@) == adapter_names(adapters@),
{
    let chars = chars_of(adapters);
    let n = chars.len();
    let mut adapters_list: Vec<String> = Vec::new();
    let mut start: usize = 0;
    let mut i: usize = 0;
    proof {
        assert(adapters@.skip(0) =~= adapters@);
        assert(names_of(adapters_list@) =~= Seq::empty());
        assert(Seq::<Seq<char>>::empty() + adapter_names(adapters@) =~= adapter_names(adapters@));
    }
    while i < n
        invariant
            n == chars@.len(),
            chars@ == adapters@,
            start <= i <= n,
            forall|k: int| start <= k < i ==> chars@[k] != ',',
            adapter_names(adapters@) == names_of(adapters_list@) + adapter_names(
                adapters@.skip(start as int),
            ),
        decreases n - i,
    {
        if chars[i] == ',' {
            let (begin, end) = trim_bounds(&chars, start, i);
            proof {
                let rest = adapters@.skip(start as int);
                lemma_first_comma(rest, i - start);
                assert(rest.take(i - start) =~= chars@.subrange(start as int, i as int));
                assert(rest.skip(i - start + 1) =~= adapters@.skip(i + 1));
            }
            if begin < end {
                let adapter_name = String::from_str(adapters.substring_char(begin, end));
                let ghost before = adapters_list@;
                adapters_list.push(adapter_name);
                assert(names_of(adapters_list@) =~= names_of(before).push(adapter_name@));
                assert(names_of(before).push(adapter_name@) + adapter_names(
                    adapters@.skip(i + 1),
                ) =~= names_of(before) + (seq![adapter_name@] + adapter_names(
                    adapters@.skip(i + 1),
                )));
            }
            start = i + 1;
        }
        i += 1;
    }
    let (begin, end) = trim_bounds(&chars, start, n);
    proof {
        let rest = adapters@.skip(start as int);
        lemma_first_comma(rest, n - start);
        assert(rest.take(n - start) =~= chars@.subrange(start as int, n as int));
    }
    if begin < end {
        let adapter_name = String::from_str(adapters.substring_char(begin, end));
        let ghost before = adapters_list@;
        adapters_list.push(adapter_name);
        assert(names_of(adapters_list@) =~= names_of(before).push(adapter_name@));
        assert(names_of(before).push(adapter_name@) =~= names_of(before) + (seq![
            adapter_name@,
        ] + Seq::<Seq<char>>::empty()));
    } else {
        assert(names_of(adapters_list@) + Seq::<Seq<char>>::empty() =~= names_of(
            adapters_list@,
        ));
    }
    adapters_list
}

impl View for Config {
    type V = ConfigModel;

    open spec fn view(&self) -> ConfigModel {
        ConfigModel {
            mqtt_host: self.mqtt_host@,
            mqtt_port: self.mqtt_port,
            bt_adapters: names_of(self.bt_adapters@),
        }
    }
}

impl Config {
    /// Reads the configuration from the text of an ini document.
    ///
    /// The text is parsed into a new document with the default settings. Where it
    /// is no ini document, the parser's words are the error. Where the document
    /// holds no configuration, the reason is followed by a hint at the expected
    /// format. The text may have `MAX_TEXT_LEN` characters at most.
    pub fn read(text: &str) -> (result: Result<Config, String>)
        requires
            text@.len() <= MAX_TEXT_LEN,
        ensures
            agrees(result, config_in_text(text@)),
    {
        let mut document = ini_new();
        match ini_read(&mut document, String::from_str(text)) {
            Ok(_) => {},
            Err(why) => {
                return Err(why);
            },
        }
        match Config::parse_config(&document) {
            Ok(config) => Ok(config),
            Err(err) => Err(err.concat(FORMAT_HINT)),
        }
    }

    /// Reads the configuration from a document with the default settings.
    fn parse_config(config: &Ini) -> (result: Result<Config, String>)
        requires
            ini_default_settings(*config),
        ensures
            agrees(result, config_in(*config)),
    {
        let mqtt_host = ini_get(config, "mqtt", "host");
        let mqtt_port = ini_getint(config, "mqtt", "port");
        let adapters = ini_get(config, "bluetooth", "adapters");
        Config::build_config(mqtt_host, mqtt_port, adapters)
    }

    /// Makes the configuration from the three values that a document holds for
    /// it: the host, the port and the list of adapters.
    pub fn build_config(
        mqtt_host: Option<String>,
        mqtt_port: Result<Option<i64>, String>,
        adapters: Option<String>,
    ) -> (result: Result<Config, String>)
        ensures
            agrees(result, config_from(text_of(mqtt_host), number_of(mqtt_port), text_of(adapters))),
    {
        let mqtt_host = match mqtt_host {
            Some(mqtt_host) => mqtt_host,
            None => return Err(String::from_str(MISSING_HOST)),
        };
        let mqtt_port = match mqtt_port {
            Ok(Some(mqtt_port)) => mqtt_port,
            Ok(None) => return Err(String::from_str(MISSING_PORT)),
            Err(reason) => return Err(reason),
        };
        if mqtt_port < 0 || mqtt_port > 65535 {
            return Err(String::from_str(INVALID_PORT));
        }
        let adapters_list = match adapters {
            Some(adapters) => split_adapters(adapters.as_str()),
            None => {
                let nothing: Vec<String> = Vec::new();
                proof {
                    let list = Seq::<char>::empty();
                    assert(list.take(first_comma(list)) =~= list);
                    assert(names_of(nothing@) =~= adapter_names(list));
                }
                nothing
            },
        };
        Ok(Config { mqtt_host, mqtt_port: mqtt_port as u16, bt_adapters: adapters_list })
    }

    /// Whether the adapter of this name may be used.
    pub fn is_adapter_allowed(&self, adapter_name: &str) -> (allowed: bool)
        ensures
            allowed == adapter_allowed(self@.bt_adapters, adapter_name@),
    {
        if self.bt_adapters.len() == 0 {
            return true;
        }
        let wanted = String::from_str(adapter_name);
        let mut i: usize = 0;
        while i < self.bt_adapters.len()
            invariant
                i <= self.bt_adapters.len(),
                wanted@ == adapter_name@,
                forall|k: int| 0 <= k < i ==> names_of(self.bt_adapters@)[k] != adapter_name@,
            decreases self.bt_adapters.len() - i,
        {
            if self.bt_adapters[i] == wanted {
                assert(names_of(self.bt_adapters@)[i as int] == adapter_name@);
                return true;
            }
            i += 1;
        }
        false
    }
}

} // verus!
