use vstd::prelude::*;
use vstd::string::StrSliceExecFns;

verus! {

/// A configuration of the crate config, as it was loaded. Nothing is known
/// of what is inside but what the two readers below give.
#[verifier::external_type_specification]
#[verifier::external_body]
pub struct ExConfig(config::Config);

/// The settings of a configuration that can be read as text, each under its
/// key.
pub uninterp spec fn config_texts(cfg: config::Config) -> Map<Seq<char>, Seq<char>>;

/// The settings of a configuration that can be read as a switch, each under
/// its key.
pub uninterp spec fn config_flags(cfg: config::Config) -> Map<Seq<char>, bool>;

/// A key that names a setting by names and dots alone, without a subscript
/// into a list.
pub open spec fn plain_key(key: Seq<char>) -> bool {
    !key.contains('[')
}

/// `Config::get_string` of the crate config, with its error dropped: the
/// setting under `key` as text, where there is one that can be read so. A
/// subscript in a key is counted from the end of the list where it is
/// negative, which the crate computes without a check: such keys are kept
/// out.
#[verifier::external_body]
fn config_string(cfg: &config::Config, key: &str) -> (r: Option<String>)
    requires
        plain_key(key@),
    ensures
        match r {
            Some(s) => config_texts(*cfg).contains_key(key@) && config_texts(*cfg)[key@] == s@,
            None => !config_texts(*cfg).contains_key(key@),
        },
{
    cfg.get_string(key).ok()
}

/// `Config::get_bool` of the crate config, with its error dropped: the
/// setting under `key` as a switch, where there is one that can be read so.
/// Keys with a subscript are kept out, as for `config_string`.
#[verifier::external_body]
fn config_bool(cfg: &config::Config, key: &str) -> (r: Option<bool>)
    requires
        plain_key(key@),
    ensures
        match r {
            Some(b) => config_flags(*cfg).contains_key(key@) && config_flags(*cfg)[key@] == b,
            None => !config_flags(*cfg).contains_key(key@),
        },
{
    cfg.get_bool(key).ok()
}

/// The text that the configuration holds under `key`, where `key` is plain
/// and there is a setting under it that can be read as text.
pub open spec fn setting_text(cfg: config::Config, key: Seq<char>) -> Option<Seq<char>> {
    if plain_key(key) && config_texts(cfg).contains_key(key) {
        Some(config_texts(cfg)[key])
    } else {
        None
    }
}

/// The switch that the configuration holds under `key`, where `key` is
/// plain and there is a setting under it that can be read as a switch.
pub open spec fn setting_flag(cfg: config::Config, key: Seq<char>) -> Option<bool> {
    if plain_key(key) && config_flags(cfg).contains_key(key) {
        Some(config_flags(cfg)[key])
    } else {
        None
    }
}

/// The text under `key`, or `fallback` where there is none.
pub open spec fn text_or(cfg: config::Config, key: Seq<char>, fallback: Seq<char>) -> Seq<char> {
    match setting_text(cfg, key) {
        Some(text) => text,
        None => fallback,
    }
}

/// The switch under `key`, or `fallback` where there is none.
pub open spec fn flag_or(cfg: config::Config, key: Seq<char>, fallback: bool) -> bool {
    match setting_flag(cfg, key) {
        Some(flag) => flag,
        None => fallback,
    }
}

/// Whether `key` is plain.
pub fn is_plain(key: &str) -> (r: bool)
    ensures
        r == plain_key(key@),
{
    let n = key.unicode_len();
    let mut i: usize = 0;
    while i < n
        invariant
            i <= n,
            n == key@.len(),
            forall|j: int| 0 <= j < i ==> key@[j] != '[',
        decreases n - i,
    {
        if key.get_char(i) == '[' {
            return false;
        }
        i += 1;
    }
    true
}

/// Reads the text under `key`. A key that is not plain names no setting.
pub fn read_string(cfg: &config::Config, key: &str) -> (r: Option<String>)
    ensures
        match setting_text(*cfg, key@) {
            Some(text) => r matches Some(s) && s@ == text,
            None => r is None,
        },
{
    if is_plain(key) {
        config_string(cfg, key)
    } else {
        None
    }
}

/// Reads the switch under `key`. A key that is not plain names no setting.
pub fn read_bool(cfg: &config::Config, key: &str) -> (r: Option<bool>)
    ensures
        r == setting_flag(*cfg, key@),
{
    if is_plain(key) {
        config_bool(cfg, key)
    } else {
        None
    }
}

/// Reads the text under `key`, or `fallback` where there is none.
pub fn string_or(cfg: &config::Config, key: &str, fallback: &str) -> (r: String)
    ensures
        r@ == text_or(*cfg, key@, fallback@),
{
    match read_string(cfg, key) {
        Some(s) => s,
        None => fallback.to_owned(),
    }
}

/// Reads the switch under `key`, or `fallback` where there is none.
pub fn bool_or(cfg: &config::Config, key: &str, fallback: bool) -> (r: bool)
    ensures
        r == flag_or(*cfg, key@, fallback),
{
    match read_bool(cfg, key) {
        Some(b) => b,
        None => fallback,
    }
}

} // verus!
