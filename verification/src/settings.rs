//! The settings that the service starts with: where it listens, and how it
//! reaches the database. They are read once, from the variables of the
//! environment, and never changed.

use crate::failure::StartupError;
use vstd::prelude::*;

verus! {

#[verifier::external_type_specification]
#[verifier::external_body]
pub struct ExSettings(::config::Config);

#[verifier::external_type_specification]
#[verifier::external_body]
pub struct ExSettingsError(::config::ConfigError);

/// The texts that a `config::Config` holds: for each key under which
/// `config::Config::get_string` finds a value that reads as text, that text.
pub uninterp spec fn texts_of(settings: ::config::Config) -> Map<Seq<char>, Seq<char>>;

/// The names of the variables that are read, in lower case, in the order of
/// `key_list`.
pub open spec fn name_list() -> Seq<Seq<char>> {
    seq![
        "listen"@,
        "pg__host"@,
        "pg__port"@,
        "pg__user"@,
        "pg__password"@,
        "pg__dbname"@,
        "pg__pool__max_size"@,
    ]
}

/// The keys of the settings: the address, then the pool settings.
pub open spec fn key_list() -> Seq<Seq<char>> {
    seq![
        "listen"@,
        "pg.host"@,
        "pg.port"@,
        "pg.user"@,
        "pg.password"@,
        "pg.dbname"@,
        "pg.pool.max_size"@,
    ]
}

/// Every entry bears one of the names of `name_list`, and no two the same.
pub open spec fn entries_fit(entries: Seq<(String, String)>) -> bool {
    &&& forall|j: int|
        0 <= j < entries.len() ==> name_list().contains((#[trigger] entries[j]).0@)
    &&& forall|i: int, j: int|
        0 <= i < j < entries.len() ==> (#[trigger] entries[i]).0@ != (#[trigger] entries[j]).0@
}

/// `config::ConfigBuilder::build` over one source, a `config::Environment`
/// that reads the given entries in place of the process's variables and
/// splits nested keys at the separator. The entries bear names of
/// `name_list` only, each at most once: such names are lower case already,
/// hold no brackets or dots, and none is filed inside another, so the build
/// succeeds and does not depend on the order in which the source is walked.
/// Each value is stored unchanged under the key that its name becomes when
/// every `__` is replaced by a dot, and nothing stands under the key of a
/// name that is not given.
#[verifier::external_body]
fn read_settings(entries: Vec<(String, String)>, separator: &str) -> (res: Result<
    ::config::Config,
    ::config::ConfigError,
>)
    requires
        separator@ == "__"@,
        entries_fit(entries@),
    ensures
        res is Ok,
        res matches Ok(settings) ==> forall|k: int, j: int|
            0 <= k < 7 && 0 <= j < entries@.len() && (#[trigger] entries@[j]).0@
                == #[trigger] name_list()[k] ==> text_at(settings, key_list()[k]) == Some(
                entries@[j].1@,
            ),
        res matches Ok(settings) ==> forall|k: int|
            0 <= k < 7 && !entries_name(entries@, #[trigger] name_list()[k]) ==> text_at(
                settings,
                key_list()[k],
            ) is None,
{
    let source = ::config::Environment::default().separator(separator).source(
        Some(entries.into_iter().collect()),
    );
    ::config::Config::builder().add_source(source).build()
}

/// Some entry bears this name.
pub open spec fn entries_name(entries: Seq<(String, String)>, name: Seq<char>) -> bool {
    exists|j: int| 0 <= j < entries.len() && (#[trigger] entries[j]).0@ == name
}

/// `config::Config::get_string`: the text that the settings hold under `key`,
/// or an error where they hold none there.
#[verifier::external_body]
fn setting_text(settings: &::config::Config, key: &str) -> (res: Result<
    String,
    ::config::ConfigError,
>)
    ensures
        match res {
            Ok(text) => texts_of(*settings).contains_key(key@) && texts_of(*settings)[key@]
                == text@,
            Err(_) => !texts_of(*settings).contains_key(key@),
        },
{
    settings.get_string(key)
}

/// The text under a key, if there is one.
pub open spec fn text_at(settings: ::config::Config, key: Seq<char>) -> Option<Seq<char>> {
    if texts_of(settings).contains_key(key) {
        Some(texts_of(settings)[key])
    } else {
        None
    }
}

pub open spec fn text_view(text: Option<String>) -> Option<Seq<char>> {
    match text {
        Some(t) => Some(t@),
        None => None,
    }
}

/// The separator between the parts of a nested key in a variable's name.
pub fn separator() -> (s: &'static str)
    ensures
        s@ == "__"@,
{
    "__"
}

/// The key of the address to listen on.
pub fn listen_key() -> (key: &'static str)
    ensures
        key@ == "listen"@,
{
    "listen"
}

/// The key of the database host.
pub fn host_key() -> (key: &'static str)
    ensures
        key@ == "pg.host"@,
{
    "pg.host"
}

/// The key of the database port.
pub fn port_key() -> (key: &'static str)
    ensures
        key@ == "pg.port"@,
{
    "pg.port"
}

/// The key of the database user.
pub fn user_key() -> (key: &'static str)
    ensures
        key@ == "pg.user"@,
{
    "pg.user"
}

/// The key of the database password.
pub fn password_key() -> (key: &'static str)
    ensures
        key@ == "pg.password"@,
{
    "pg.password"
}

/// The key of the database name.
pub fn dbname_key() -> (key: &'static str)
    ensures
        key@ == "pg.dbname"@,
{
    "pg.dbname"
}

/// The key of the most connections that the pool may hold.
pub fn max_size_key() -> (key: &'static str)
    ensures
        key@ == "pg.pool.max_size"@,
{
    "pg.pool.max_size"
}

/// How the database is reached and how large the pool may grow, each as the
/// text that was given for it, if any was.
#[derive(Debug, Clone, PartialEq, Eq)]
pub struct PoolSettings {
    pub host: Option<String>,
    pub port: Option<String>,
    pub user: Option<String>,
    pub password: Option<String>,
    pub dbname: Option<String>,
    pub max_size: Option<String>,
}

/// What `PoolSettings` stands for.
pub ghost struct PoolTexts {
    pub host: Option<Seq<char>>,
    pub port: Option<Seq<char>>,
    pub user: Option<Seq<char>>,
    pub password: Option<Seq<char>>,
    pub dbname: Option<Seq<char>>,
    pub max_size: Option<Seq<char>>,
}

impl PoolTexts {
    /// At least one of the settings is given.
    pub open spec fn any(self) -> bool {
        self.host is Some || self.port is Some || self.user is Some || self.password is Some
            || self.dbname is Some || self.max_size is Some
    }
}

impl View for PoolSettings {
    type V = PoolTexts;

    open spec fn view(&self) -> PoolTexts {
        PoolTexts {
            host: text_view(self.host),
            port: text_view(self.port),
            user: text_view(self.user),
            password: text_view(self.password),
            dbname: text_view(self.dbname),
            max_size: text_view(self.max_size),
        }
    }
}

/// The pool settings that a configuration holds, each under its key.
pub open spec fn pool_texts(settings: ::config::Config) -> PoolTexts {
    PoolTexts {
        host: text_at(settings, "pg.host"@),
        port: text_at(settings, "pg.port"@),
        user: text_at(settings, "pg.user"@),
        password: text_at(settings, "pg.password"@),
        dbname: text_at(settings, "pg.dbname"@),
        max_size: text_at(settings, "pg.pool.max_size"@),
    }
}

/// A letter of the ASCII alphabet as its lower-case form, any other
/// character as itself, each as its code point.
pub open spec fn fold(c: char) -> u32 {
    if 65 <= c as u32 <= 90 {
        (c as u32 + 32) as u32
    } else {
        c as u32
    }
}

/// Two names are the same but for the case of ASCII letters.
pub open spec fn same_name(a: Seq<char>, b: Seq<char>) -> bool {
    a.len() == b.len() && forall|i: int| 0 <= i < a.len() ==> fold(#[trigger] a[i]) == fold(b[i])
}

/// The variable at `i` bears `name`, but for case.
pub open spec fn named(vars: Seq<(String, String)>, name: Seq<char>, i: int) -> bool {
    0 <= i < vars.len() && same_name(vars[i].0@, name)
}

/// Two variables bear `name`, but for case.
pub open spec fn clash(vars: Seq<(String, String)>, name: Seq<char>) -> bool {
    exists|i: int, j: int| i != j && #[trigger] named(vars, name, i) && #[trigger] named(vars, name, j)
}

/// The value of the variable that bears `name`, but for case, if there is
/// one.
pub open spec fn given(vars: Seq<(String, String)>, name: Seq<char>) -> Option<Seq<char>> {
    if exists|i: int| named(vars, name, i) {
        Some(vars[choose|i: int| named(vars, name, i)].1@)
    } else {
        None
    }
}

/// No name that is read is borne by two variables.
pub open spec fn unambiguous(vars: Seq<(String, String)>) -> bool {
    forall|k: int| 0 <= k < 7 ==> !clash(vars, #[trigger] name_list()[k])
}

/// The pool settings that the variables give.
pub open spec fn pool_given(vars: Seq<(String, String)>) -> PoolTexts {
    PoolTexts {
        host: given(vars, "pg__host"@),
        port: given(vars, "pg__port"@),
        user: given(vars, "pg__user"@),
        password: given(vars, "pg__password"@),
        dbname: given(vars, "pg__dbname"@),
        max_size: given(vars, "pg__pool__max_size"@),
    }
}

/// The value of a decimal digit.
pub open spec fn digit(c: char) -> Option<nat> {
    if 48 <= c as u32 <= 57 {
        Some((c as u32 - 48) as nat)
    } else {
        None
    }
}

/// The number that a text of decimal digits writes; `None` for the empty
/// text and for a text that holds anything but digits.
pub open spec fn number(text: Seq<char>) -> Option<nat>
    decreases text.len(),
{
    if text.len() == 0 {
        None
    } else if text.len() == 1 {
        digit(text[0])
    } else {
        match (number(text.drop_last()), digit(text.last())) {
            (Some(n), Some(d)) => Some(n * 10 + d),
            _ => None,
        }
    }
}

/// The number that a text writes, if it writes one and that is at most
/// `limit`.
pub open spec fn bounded(text: Seq<char>, limit: nat) -> Option<nat> {
    match number(text) {
        Some(n) => if n <= limit {
            Some(n)
        } else {
            None
        },
        None => None,
    }
}

/// A setting that is given writes a number up to `limit`.
pub open spec fn fits(text: Option<Seq<char>>, limit: nat) -> bool {
    text matches Some(t) ==> bounded(t, limit) is Some
}

/// The largest port.
pub const PORT_LIMIT: u64 = 65535;

/// The largest pool size that is read.
pub const SIZE_LIMIT: u64 = 4294967295;

impl PoolTexts {
    /// Port and pool size, where given, are numbers within their limits.
    pub open spec fn numbers_fit(self) -> bool {
        fits(self.port, PORT_LIMIT as nat) && fits(self.max_size, SIZE_LIMIT as nat)
    }
}

/// A text that does not write a number, or writes one that is too large,
/// does not get better by what follows.
proof fn lemma_number_grows(text: Seq<char>, i: int)
    requires
        1 <= i <= text.len(),
    ensures
        number(text.take(i)) is None ==> number(text) is None,
        number(text.take(i)) matches Some(n) ==> (number(text) matches Some(m) ==> m >= n),
    decreases text.len() - i,
{
    if i == text.len() {
        assert(text.take(i) =~= text);
    } else {
        lemma_number_grows(text, i + 1);
        assert(text.take(i + 1).drop_last() =~= text.take(i));
    }
}

/// Reads a text of decimal digits as a number up to `limit`.
fn parse_number(text: &str, limit: u64) -> (res: Option<u64>)
    requires
        limit <= 1_000_000_000_000_000_000,
    ensures
        match bounded(text@, limit as nat) {
            Some(n) => res == Some(n as u64),
            None => res is None,
        },
{
    let n = text.unicode_len();
    if n == 0 {
        return None;
    }
    let mut acc: u64 = 0;
    let mut i: usize = 0;
    while i < n
        invariant
            i <= n,
            n == text@.len(),
            limit <= 1_000_000_000_000_000_000,
            acc <= limit,
            i == 0 ==> acc == 0,
            i > 0 ==> number(text@.take(i as int)) == Some(acc as nat),
        decreases n - i,
    {
        let code: u32 = text.get_char(i) as u32;
        proof {
            assert(text@.take(i + 1).drop_last() =~= text@.take(i as int));
            assert(text@.take(i + 1).last() == text@[i as int]);
            assert(text@.take(i + 1)[0] == text@[0]);
            lemma_number_grows(text@, i + 1);
        }
        if code < 48 || code > 57 {
            return None;
        }
        let d: u64 = (code - 48) as u64;
        let next: u64 = acc * 10 + d;
        if next > limit {
            return None;
        }
        acc = next;
        i += 1;
    }
    assert(text@.take(n as int) =~= text@);
    Some(acc)
}

/// The settings of the service.
#[derive(Debug, Clone, PartialEq, Eq)]
pub struct Settings {
    /// The address to listen on, as `host:port`.
    pub listen: String,
    /// Host, port, credentials, database and size of the connection pool.
    pub pg: PoolSettings,
}

fn optional_text(settings: &::config::Config, key: &str) -> (text: Option<String>)
    ensures
        text_view(text) == text_at(*settings, key@),
{
    match setting_text(settings, key) {
        Ok(text) => Some(text),
        Err(_) => None,
    }
}

impl PoolSettings {
    /// The port as a number: `Ok(None)` where none is given, and an error
    /// where what is given writes no number up to 65535.
    pub fn port_number(&self) -> (res: Result<Option<u16>, StartupError>)
        ensures
            match self@.port {
                None => res == Ok::<Option<u16>, StartupError>(None),
                Some(t) => match bounded(t, PORT_LIMIT as nat) {
                    Some(n) => res == Ok::<Option<u16>, StartupError>(Some(n as u16)),
                    None => res == Err::<Option<u16>, StartupError>(StartupError::Settings),
                },
            },
    {
        match &self.port {
            None => Ok(None),
            Some(text) => match parse_number(text.as_str(), PORT_LIMIT) {
                Some(n) => Ok(Some(n as u16)),
                None => Err(StartupError::Settings),
            },
        }
    }

    /// The pool size as a number: `Ok(None)` where none is given, and an
    /// error where what is given writes no number up to 4294967295.
    pub fn max_size_number(&self) -> (res: Result<Option<u32>, StartupError>)
        ensures
            match self@.max_size {
                None => res == Ok::<Option<u32>, StartupError>(None),
                Some(t) => match bounded(t, SIZE_LIMIT as nat) {
                    Some(n) => res == Ok::<Option<u32>, StartupError>(Some(n as u32)),
                    None => res == Err::<Option<u32>, StartupError>(StartupError::Settings),
                },
            },
    {
        match &self.max_size {
            None => Ok(None),
            Some(text) => match parse_number(text.as_str(), SIZE_LIMIT) {
                Some(n) => Ok(Some(n as u32)),
                None => Err(StartupError::Settings),
            },
        }
    }

    /// Whether any of the settings is given.
    pub fn any(&self) -> (given: bool)
        ensures
            given == self@.any(),
    {
        self.host.is_some() || self.port.is_some() || self.user.is_some()
            || self.password.is_some() || self.dbname.is_some() || self.max_size.is_some()
    }
}

impl Settings {
    /// Takes the settings out of a configuration: the address from under
    /// `listen`, and each pool setting from under its key below `pg`. The
    /// address and at least one pool setting must be there, and port and pool
    /// size, where given, must be numbers within their limits.
    pub fn from_settings(settings: &::config::Config) -> (res: Result<Settings, StartupError>)
        ensures
            match res {
                Ok(read) => text_at(*settings, "listen"@) == Some(read.listen@) && read.pg@
                    == pool_texts(*settings) && read.pg@.any() && read.pg@.numbers_fit(),
                Err(e) => e == StartupError::Settings && (text_at(*settings, "listen"@) is None
                    || !pool_texts(*settings).any() || !pool_texts(*settings).numbers_fit()),
            },
    {
        let pg = PoolSettings {
            host: optional_text(settings, host_key()),
            port: optional_text(settings, port_key()),
            user: optional_text(settings, user_key()),
            password: optional_text(settings, password_key()),
            dbname: optional_text(settings, dbname_key()),
            max_size: optional_text(settings, max_size_key()),
        };
        match optional_text(settings, listen_key()) {
            None => Err(StartupError::Settings),
            Some(listen) => {
                if pg.any() && pg.port_number().is_ok() && pg.max_size_number().is_ok() {
                    Ok(Settings { listen, pg })
                } else {
                    Err(StartupError::Settings)
                }
            },
        }
    }

    /// Reads the settings from the variables of the environment, given as
    /// pairs of name and value. Seven names are read, without regard to the
    /// case of their letters: `LISTEN` for the address, and `PG__HOST`,
    /// `PG__PORT`, `PG__USER`, `PG__PASSWORD`, `PG__DBNAME` and
    /// `PG__POOL__MAX_SIZE` for the pool; every other variable is passed
    /// over. The read succeeds exactly when none of the seven is borne by two
    /// variables, the address is given and so is at least one pool setting,
    /// and port and pool size, where given, are numbers within their limits;
    /// each setting is then the value of its variable, as it was given.
    pub fn from_env(vars: Vec<(String, String)>) -> (res: Result<Settings, StartupError>)
        ensures
            res is Ok <==> unambiguous(vars@) && given(vars@, "listen"@) is Some && pool_given(
                vars@,
            ).any() && pool_given(vars@).numbers_fit(),
            res matches Ok(read) ==> Some(read.listen@) == given(vars@, "listen"@) && read.pg@
                == pool_given(vars@),
            res matches Err(e) ==> e == StartupError::Settings,
    {
        let names = names();
        let mut chosen: Vec<(String, String)> = Vec::new();
        let ghost mut src: Seq<int> = Seq::empty();
        let ghost mut pos: Seq<int> = Seq::empty();
        let mut k: usize = 0;
        while k < 7
            invariant
                k <= 7,
                names@.len() == 7,
                forall|n: int| 0 <= n < 7 ==> (#[trigger] names@[n])@ == name_list()[n],
                src.len() == chosen@.len(),
                pos.len() == k,
                forall|j: int|
                    0 <= j < chosen@.len() ==> 0 <= #[trigger] src[j] < k && chosen@[j].0@
                        == name_list()[src[j]] && given(vars@, name_list()[src[j]]) == Some(
                        chosen@[j].1@,
                    ),
                forall|i: int, j: int| 0 <= i < j < src.len() ==> src[i] < src[j],
                forall|n: int| 0 <= n < k ==> !clash(vars@, #[trigger] name_list()[n]),
                forall|n: int|
                    0 <= n < k && given(vars@, name_list()[n]) is Some ==> 0 <= #[trigger] pos[n]
                        < chosen@.len() && src[pos[n]] == n,
            decreases 7 - k,
        {
            match find(&vars, names[k]) {
                Err(_) => {
                    return Err(StartupError::Settings);
                },
                Ok(None) => {
                    proof {
                        pos = pos.push(-1);
                    }
                },
                Ok(Some(value)) => {
                    chosen.push((names[k].to_owned(), value));
                    proof {
                        src = src.push(k as int);
                        pos = pos.push(chosen@.len() - 1);
                    }
                },
            }
            k += 1;
        }
        proof {
            lemma_names_differ();
            assert forall|j: int| 0 <= j < chosen@.len() implies name_list().contains(
                (#[trigger] chosen@[j]).0@,
            ) by {
                assert(name_list()[src[j]] == chosen@[j].0@);
            }
            assert forall|i: int, j: int| 0 <= i < j < chosen@.len() implies (#[trigger] chosen@[i]).0@
                != (#[trigger] chosen@[j]).0@ by {
                assert(src[i] < src[j]);
            }
        }
        match read_settings(chosen, separator()) {
            Err(_) => Err(StartupError::Settings),
            Ok(settings) => {
                proof {
                    assert forall|n: int| 0 <= n < 7 implies text_at(settings, key_list()[n])
                        == given(vars@, #[trigger] name_list()[n]) by {
                        if given(vars@, name_list()[n]) is Some {
                            let j = pos[n];
                            assert(chosen@[j].0@ == name_list()[n]);
                        } else {
                            if entries_name(chosen@, name_list()[n]) {
                                let j = choose|j: int|
                                    0 <= j < chosen@.len() && (#[trigger] chosen@[j]).0@
                                        == name_list()[n];
                                assert(given(vars@, name_list()[src[j]]) is Some);
                            }
                        }
                    }
                    assert(name_list()[0] == "listen"@ && key_list()[0] == "listen"@);
                    assert(name_list()[1] == "pg__host"@ && key_list()[1] == "pg.host"@);
                    assert(name_list()[2] == "pg__port"@ && key_list()[2] == "pg.port"@);
                    assert(name_list()[3] == "pg__user"@ && key_list()[3] == "pg.user"@);
                    assert(name_list()[4] == "pg__password"@ && key_list()[4] == "pg.password"@);
                    assert(name_list()[5] == "pg__dbname"@ && key_list()[5] == "pg.dbname"@);
                    assert(name_list()[6] == "pg__pool__max_size"@ && key_list()[6]
                        == "pg.pool.max_size"@);
                }
                Settings::from_settings(&settings)
            },
        }
    }
}

/// The names of `name_list`, to compare with.
fn names() -> (list: Vec<&'static str>)
    ensures
        list@.len() == 7,
        forall|n: int| 0 <= n < 7 ==> (#[trigger] list@[n])@ == name_list()[n],
{
    let mut list: Vec<&'static str> = Vec::new();
    list.push("listen");
    list.push("pg__host");
    list.push("pg__port");
    list.push("pg__user");
    list.push("pg__password");
    list.push("pg__dbname");
    list.push("pg__pool__max_size");
    list
}

/// The names of `name_list` differ from each other.
pub proof fn lemma_names_differ()
    ensures
        forall|a: int, b: int| 0 <= a < b < 7 ==> #[trigger] name_list()[a] != #[trigger] name_list()[b],
{
    reveal_strlit("listen");
    reveal_strlit("pg__host");
    reveal_strlit("pg__port");
    reveal_strlit("pg__user");
    reveal_strlit("pg__password");
    reveal_strlit("pg__dbname");
    reveal_strlit("pg__pool__max_size");
    assert("pg__host"@[4] == 'h' && "pg__port"@[4] == 'p' && "pg__user"@[4] == 'u');
    assert("listen"@.len() == 6 && "pg__host"@.len() == 8 && "pg__password"@.len() == 12);
    assert("pg__dbname"@.len() == 10 && "pg__pool__max_size"@.len() == 18);
}

fn fold_char(c: char) -> (code: u32)
    ensures
        code == fold(c),
{
    let n: u32 = c as u32;
    if 65 <= n && n <= 90 {
        n + 32
    } else {
        n
    }
}

/// Compares two names without regard to the case of ASCII letters.
pub fn names_agree(a: &str, b: &str) -> (same: bool)
    ensures
        same == same_name(a@, b@),
{
    let n = a.unicode_len();
    if n != b.unicode_len() {
        return false;
    }
    let mut i: usize = 0;
    while i < n
        invariant
            i <= n,
            n == a@.len(),
            n == b@.len(),
            forall|j: int| 0 <= j < i ==> fold(#[trigger] a@[j]) == fold(b@[j]),
        decreases n - i,
    {
        if fold_char(a.get_char(i)) != fold_char(b.get_char(i)) {
            return false;
        }
        i += 1;
    }
    true
}

/// Looks up the one variable that bears `name`, but for case. Two such
/// variables are an error.
pub fn find(vars: &Vec<(String, String)>, name: &str) -> (res: Result<
    Option<String>,
    StartupError,
>)
    ensures
        match res {
            Ok(value) => !clash(vars@, name@) && text_view(value) == given(vars@, name@),
            Err(e) => e == StartupError::Settings && clash(vars@, name@),
        },
{
    let mut found: Option<usize> = None;
    let mut i: usize = 0;
    while i < vars.len()
        invariant
            i <= vars.len(),
            found matches Some(at) ==> at < i && named(vars@, name@, at as int),
            forall|j: int| 0 <= j < i && named(vars@, name@, j) ==> found == Some(j as usize),
        decreases vars.len() - i,
    {
        if names_agree(vars[i].0.as_str(), name) {
            if found.is_some() {
                assert(named(vars@, name@, found.unwrap() as int) && named(vars@, name@, i as int));
                return Err(StartupError::Settings);
            }
            found = Some(i);
        }
        i += 1;
    }
    match found {
        None => Ok(None),
        Some(at) => {
            assert(named(vars@, name@, at as int));
            Ok(Some(vars[at].1.clone()))
        },
    }
}

} // verus!
