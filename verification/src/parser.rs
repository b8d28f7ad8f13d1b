//! Loading a splitting configuration from INI text.
//!
//! The INI document itself is read by the `ini` crate behind trusted
//! declarations; everything the document is then held to — the config-string
//! grammar `<enabled>,<mode>`, the `[PIPES]` table, the per-input sections,
//! the root directory — is specified and verified here.

use vstd::prelude::*;

use crate::config::{Config, Error, OperationMode, SplitIn, SplitOut};

verus! {

// ---------------------------------------------------------------------------
// The config-string grammar: `<enabled>,<mode>`.
//
// `enabled` is the single character `1` for true, anything else for false.
// `mode` is one of the codes `rt`, `rb`, `wt`, `wb`, matched without regard
// to letter case, as lowercasing the value would match them; a present but
// unrecognized mode is a configuration error. Fields past the second are
// ignored.
// ---------------------------------------------------------------------------
/// Index of the first comma of `s`, or `s.len()` when there is none.
pub open spec fn comma_index(s: Seq<char>) -> int
    decreases s.len(),
{
    if s.len() == 0 {
        0
    } else if s[0] == ',' {
        0
    } else {
        1 + comma_index(s.drop_first())
    }
}

/// The first comma-separated field of `s`.
pub open spec fn first_field(s: Seq<char>) -> Seq<char> {
    s.subrange(0, comma_index(s))
}

/// The second comma-separated field of `s`, when a first comma exists.
pub open spec fn mode_field(s: Seq<char>) -> Option<Seq<char>> {
    if comma_index(s) == s.len() {
        None
    } else {
        Some(first_field(s.subrange(comma_index(s) + 1, s.len() as int)))
    }
}

/// Whether the first field claims the pipe enabled: it must be exactly `1`.
pub open spec fn spec_enabled(s: Seq<char>) -> bool {
    first_field(s).len() == 1 && first_field(s)[0] == '1'
}

/// Whether `t` is the two-letter code whose letters are `lo0 lo1`, in either
/// case.
pub open spec fn is_code(t: Seq<char>, lo0: char, up0: char, lo1: char, up1: char) -> bool {
    t.len() == 2 && (t[0] == lo0 || t[0] == up0) && (t[1] == lo1 || t[1] == up1)
}

/// The mode named by token `t`, or `None` when the token is not a mode code.
pub open spec fn spec_mode_of(t: Seq<char>) -> Option<OperationMode> {
    if is_code(t, 'r', 'R', 't', 'T') {
        Some(OperationMode::StringRead)
    } else if is_code(t, 'r', 'R', 'b', 'B') {
        Some(OperationMode::BytesRead)
    } else if is_code(t, 'w', 'W', 't', 'T') {
        Some(OperationMode::StringWrite)
    } else if is_code(t, 'w', 'W', 'b', 'B') {
        Some(OperationMode::BytesWrite)
    } else {
        None
    }
}

/// The error message reported for an unrecognized mode token.
pub open spec fn unknown_mode_msg(t: Seq<char>) -> Seq<char> {
    "Unknown operation type '"@ + t + "'"@
}

/// What parsing a non-empty config string yields: a `Config` on success, the
/// error message on an unrecognized mode.
pub open spec fn spec_split_config(s: Seq<char>) -> Result<Config, Seq<char>> {
    match mode_field(s) {
        None => Ok(Config { enabled: spec_enabled(s), mode: None }),
        Some(t) => match spec_mode_of(t) {
            Some(m) => Ok(Config { enabled: spec_enabled(s), mode: Some(m) }),
            None => Err(unknown_mode_msg(t)),
        },
    }
}

/// Read-side config string: empty means the read defaults.
pub open spec fn spec_read_config(s: Seq<char>) -> Result<Config, Seq<char>> {
    if s.len() == 0 {
        Ok(Config { enabled: true, mode: Some(OperationMode::StringRead) })
    } else {
        spec_split_config(s)
    }
}

/// Write-side config string: empty means the write defaults.
pub open spec fn spec_write_config(s: Seq<char>) -> Result<Config, Seq<char>> {
    if s.len() == 0 {
        Ok(Config { enabled: true, mode: Some(OperationMode::StringWrite) })
    } else {
        spec_split_config(s)
    }
}

/// Relates an executable parse result to a specified one: same config on
/// success, a `Configuration` error carrying the specified message otherwise.
pub open spec fn matches_config_result(r: Result<Config, Error>, m: Result<Config, Seq<char>>) -> bool {
    match r {
        Ok(c) => m == Ok::<Config, Seq<char>>(c),
        Err(Error::Configuration(msg)) => m == Err::<Config, Seq<char>>(msg@),
        Err(Error::Ini(_)) => false,
    }
}

proof fn lemma_comma_index(s: Seq<char>)
    ensures
        0 <= comma_index(s) <= s.len(),
        comma_index(s) < s.len() ==> s[comma_index(s)] == ',',
        forall|j: int| 0 <= j < comma_index(s) ==> s[j] != ',',
    decreases s.len(),
{
    if s.len() != 0 && s[0] != ',' {
        lemma_comma_index(s.drop_first());
        assert forall|j: int| 0 <= j < comma_index(s) implies s[j] != ',' by {
            if j > 0 {
                assert(s.drop_first()[j - 1] == s[j]);
            }
        }
    }
}

proof fn lemma_comma_index_unique(s: Seq<char>, j: int)
    requires
        0 <= j <= s.len(),
        forall|k: int| 0 <= k < j ==> s[k] != ',',
        j < s.len() ==> s[j] == ',',
    ensures
        comma_index(s) == j,
{
    lemma_comma_index(s);
}

/// First index of `,` in `s` at or after `from`, or `n` when there is none.
fn find_comma(s: &str, from: usize, n: usize) -> (j: usize)
    requires
        from <= n,
        n == s@.len(),
    ensures
        from <= j <= n,
        forall|k: int| from <= k < j ==> s@[k] != ',',
        j < n ==> s@[j as int] == ',',
{
    let mut j = from;
    while j < n
        invariant
            from <= j <= n,
            n == s@.len(),
            forall|k: int| from <= k < j ==> s@[k] != ',',
        decreases n - j,
    {
        if s.get_char(j) == ',' {
            return j;
        }
        j = j + 1;
    }
    j
}

/// The parser of splitting configurations.
pub struct Parser;

impl Parser {
    /// Parse a non-empty (or any) config string `<enabled>,<mode>`.
    pub fn get_split_configuration(config: &str) -> (r: Result<Config, Error>)
        ensures
            matches_config_result(r, spec_split_config(config@)),
    {
        let n = config.unicode_len();
        let first = find_comma(config, 0, n);
        proof {
            lemma_comma_index_unique(config@, first as int);
        }
        let enabled = first == 1 && config.get_char(0) == '1';

        if first == n {
            return Ok(Config { enabled, mode: None });
        }

        let second = find_comma(config, first + 1, n);
        proof {
            let tail = config@.subrange(first + 1, n as int);
            assert forall|k: int| 0 <= k < second - (first + 1) implies tail[k] != ',' by {
                assert(tail[k] == config@[first + 1 + k]);
            }
            lemma_comma_index_unique(tail, second - (first + 1));
            assert(mode_field(config@) == Some(tail.subrange(0, second - (first + 1))));
        }
        let ghost t = mode_field(config@)->0;
        proof {
            assert(t =~= config@.subrange(first + 1, second as int));
        }

        let mode: Option<OperationMode> = if second - (first + 1) == 2 {
            let c0 = config.get_char(first + 1);
            let c1 = config.get_char(first + 2);
            if (c0 == 'r' || c0 == 'R') && (c1 == 't' || c1 == 'T') {
                Some(OperationMode::StringRead)
            } else if (c0 == 'r' || c0 == 'R') && (c1 == 'b' || c1 == 'B') {
                Some(OperationMode::BytesRead)
            } else if (c0 == 'w' || c0 == 'W') && (c1 == 't' || c1 == 'T') {
                Some(OperationMode::StringWrite)
            } else if (c0 == 'w' || c0 == 'W') && (c1 == 'b' || c1 == 'B') {
                Some(OperationMode::BytesWrite)
            } else {
                None
            }
        } else {
            None
        };

        match mode {
            Some(m) => Ok(Config { enabled, mode: Some(m) }),
            None => {
                let token = config.substring_char(first + 1, second);
                let msg = String::from_str("Unknown operation type '").concat(token).concat("'");
                Err(Error::Configuration(msg))
            },
        }
    }

    /// Parse a read-side config value; empty means the read defaults.
    pub fn get_read_config(config: &str) -> (r: Result<Config, Error>)
        ensures
            matches_config_result(r, spec_read_config(config@)),
    {
        if config.is_empty() {
            return Ok(Config::default_read());
        }
        Self::get_split_configuration(config)
    }

    /// Parse a write-side config value; empty means the write defaults.
    pub fn get_write_config(config: &str) -> (r: Result<Config, Error>)
        ensures
            matches_config_result(r, spec_write_config(config@)),
    {
        if config.is_empty() {
            return Ok(Config::default_write());
        }
        Self::get_split_configuration(config)
    }
}

// ---------------------------------------------------------------------------
// The INI document, as the `ini` crate parses it.
//
// An `ini::Ini` value is opaque here. Its named sections are modelled as a
// map from section name to the section's key/value pairs in document order;
// `ini_sections` names that content, and the trusted items below are the only
// places that speak for it.
// ---------------------------------------------------------------------------
/// A parsed INI document's named sections: name, then key/value pairs in
/// document order (duplicate keys keep their separate pairs).
pub type IniModel = Map<Seq<char>, Seq<(Seq<char>, Seq<char>)>>;

#[verifier::external_type_specification]
#[verifier::external_body]
pub struct ExIni(ini::Ini);

/// What `ini::Ini::section` and the section's iterator yield for each named
/// section of a document.
pub uninterp spec fn ini_sections(conf: ini::Ini) -> IniModel;

/// The outcome of parsing INI text: the named sections of the resulting
/// document, or `None` when the text is not well-formed INI.
pub uninterp spec fn ini_parse(text: Seq<char>) -> Option<IniModel>;

/// Relies on ini::Ini::load_from_str: parsing is a function of the text
/// alone; `ini_parse` names its outcome. The error payload is the reported
/// parse message.
#[verifier::external_body]
fn load_ini_str(text: &str) -> (r: Result<ini::Ini, String>)
    ensures
        match r {
            Ok(conf) => ini_parse(text@) == Some(ini_sections(conf)),
            Err(_) => ini_parse(text@) is None,
        },
{
    match ini::Ini::load_from_str(text) {
        Ok(conf) => Ok(conf),
        Err(e) => Err(format!("{}", e)),
    }
}

/// Relies on ini::Ini::load_from_file. What comes back depends on the file
/// on disk, so nothing more is promised of the outcome.
#[verifier::external_body]
fn load_ini_file(path: &str) -> (r: Result<ini::Ini, String>)
{
    match ini::Ini::load_from_file(path) {
        Ok(conf) => Ok(conf),
        Err(e) => Err(format!("{}", e)),
    }
}

/// View of extracted section entries as sequences of characters.
pub open spec fn entries_view(v: Seq<(String, String)>) -> Seq<(Seq<char>, Seq<char>)> {
    Seq::new(v.len(), |i: int| (v[i].0@, v[i].1@))
}

/// Relies on ini::Ini::section and ini::Properties::iter: a named section is
/// found exactly when the document holds one, and its entries come out as
/// the key/value pairs in document order.
#[verifier::external_body]
fn ini_section_entries(conf: &ini::Ini, name: &str) -> (r: Option<Vec<(String, String)>>)
    ensures
        match r {
            Some(v) => ini_sections(*conf).contains_key(name@) && entries_view(v@)
                == ini_sections(*conf)[name@],
            None => !ini_sections(*conf).contains_key(name@),
        },
{
    match conf.section(Some(name)) {
        Some(props) => Some(props.iter().map(|(k, v)| (k.to_string(), v.to_string())).collect()),
        None => None,
    }
}

// ---------------------------------------------------------------------------
// From the document model to the splitting configuration.
// ---------------------------------------------------------------------------
/// The first value stored under `key`, in entry order.
pub open spec fn spec_first_value(entries: Seq<(Seq<char>, Seq<char>)>, key: Seq<char>) -> Option<
    Seq<char>,
>
    decreases entries.len(),
{
    if entries.len() == 0 {
        None
    } else if entries[0].0 == key {
        Some(entries[0].1)
    } else {
        spec_first_value(entries.drop_first(), key)
    }
}

/// The root directory all pipes live under: key `root` of section `DEFAULT`,
/// with a fixed fallback.
pub open spec fn spec_root(m: IniModel) -> Seq<char> {
    if m.contains_key("DEFAULT"@) {
        match spec_first_value(m["DEFAULT"@], "root"@) {
            Some(v) => v,
            None => "/tmp/cvnpipes"@,
        }
    } else {
        "/tmp/cvnpipes"@
    }
}

/// View of one destination: pipe path and configuration.
pub open spec fn out_views(v: Seq<SplitOut>) -> Seq<(Seq<char>, Config)> {
    Seq::new(v.len(), |i: int| (v[i].pipe@, v[i].configuration))
}

/// View of one source: pipe path, configuration, destinations.
pub open spec fn in_views(v: Seq<SplitIn>) -> Seq<(Seq<char>, Config, Seq<(Seq<char>, Config)>)> {
    Seq::new(v.len(), |i: int| (v[i].pipe@, v[i].configuration, out_views(v[i].outputs@)))
}

/// The destinations a section's entries describe: one per entry, in order,
/// path `root/<key>`; the first entry whose value does not parse decides the
/// error.
pub open spec fn spec_outputs(entries: Seq<(Seq<char>, Seq<char>)>, root: Seq<char>) -> Result<
    Seq<(Seq<char>, Config)>,
    Seq<char>,
>
    decreases entries.len(),
{
    if entries.len() == 0 {
        Ok(Seq::empty())
    } else {
        match spec_outputs(entries.drop_last(), root) {
            Err(e) => Err(e),
            Ok(rest) => match spec_write_config(entries.last().1) {
                Ok(c) => Ok(rest.push((root + "/"@ + entries.last().0, c))),
                Err(e) => Err(e),
            },
        }
    }
}

/// The sources the `[PIPES]` entries describe: one per entry, in order, each
/// with the destinations of its matching section (none when the section is
/// absent). Per entry, a bad read config decides before a bad output.
pub open spec fn spec_inputs(pipes: Seq<(Seq<char>, Seq<char>)>, m: IniModel, root: Seq<char>) -> Result<
    Seq<(Seq<char>, Config, Seq<(Seq<char>, Config)>)>,
    Seq<char>,
>
    decreases pipes.len(),
{
    if pipes.len() == 0 {
        Ok(Seq::empty())
    } else {
        match spec_inputs(pipes.drop_last(), m, root) {
            Err(e) => Err(e),
            Ok(rest) => {
                let name = pipes.last().0;
                match spec_read_config(pipes.last().1) {
                    Err(e) => Err(e),
                    Ok(c) => {
                        let outs = if m.contains_key(name) {
                            spec_outputs(m[name], root)
                        } else {
                            Ok(Seq::empty())
                        };
                        match outs {
                            Err(e) => Err(e),
                            Ok(o) => Ok(rest.push((root + "/"@ + name, c, o))),
                        }
                    },
                }
            },
        }
    }
}

/// The error message reported when the `[PIPES]` section is missing.
pub open spec fn missing_pipes_msg() -> Seq<char> {
    "configuration must contain a 'PIPES' section"@
}

/// What a whole document yields: its sources, or a configuration error.
pub open spec fn spec_parse(m: IniModel) -> Result<
    Seq<(Seq<char>, Config, Seq<(Seq<char>, Config)>)>,
    Seq<char>,
> {
    if !m.contains_key("PIPES"@) {
        Err(missing_pipes_msg())
    } else {
        spec_inputs(m["PIPES"@], m, spec_root(m))
    }
}

/// Relates an executable source list to a specified parse outcome.
pub open spec fn matches_parse_result(r: Result<Vec<SplitIn>, Error>, m: Result<
    Seq<(Seq<char>, Config, Seq<(Seq<char>, Config)>)>,
    Seq<char>,
>) -> bool {
    match r {
        Ok(v) => m == Ok::<Seq<(Seq<char>, Config, Seq<(Seq<char>, Config)>)>, Seq<char>>(
            in_views(v@),
        ),
        Err(Error::Configuration(msg)) => m == Err::<
            Seq<(Seq<char>, Config, Seq<(Seq<char>, Config)>)>,
            Seq<char>,
        >(msg@),
        Err(Error::Ini(_)) => false,
    }
}

proof fn lemma_first_value_skip(entries: Seq<(Seq<char>, Seq<char>)>, key: Seq<char>, i: int)
    requires
        0 <= i <= entries.len(),
        forall|j: int| 0 <= j < i ==> entries[j].0 != key,
    ensures
        spec_first_value(entries, key) == spec_first_value(
            entries.subrange(i, entries.len() as int),
            key,
        ),
    decreases i,
{
    if i > 0 {
        assert(entries[0].0 != key);
        lemma_first_value_skip(entries.drop_first(), key, i - 1);
        assert(entries.drop_first().subrange(i - 1, entries.drop_first().len() as int)
            =~= entries.subrange(i, entries.len() as int));
    } else {
        assert(entries.subrange(0, entries.len() as int) =~= entries);
    }
}

proof fn lemma_outputs_err_stays(entries: Seq<(Seq<char>, Seq<char>)>, root: Seq<char>, i: int)
    requires
        0 <= i <= entries.len(),
        spec_outputs(entries.subrange(0, i), root) is Err,
    ensures
        spec_outputs(entries, root) == spec_outputs(entries.subrange(0, i), root),
    decreases entries.len() - i,
{
    if i < entries.len() {
        assert(entries.subrange(0, i + 1).drop_last() =~= entries.subrange(0, i));
        lemma_outputs_err_stays(entries, root, i + 1);
    } else {
        assert(entries.subrange(0, entries.len() as int) =~= entries);
    }
}

proof fn lemma_inputs_err_stays(pipes: Seq<(Seq<char>, Seq<char>)>, m: IniModel, root: Seq<char>, i: int)
    requires
        0 <= i <= pipes.len(),
        spec_inputs(pipes.subrange(0, i), m, root) is Err,
    ensures
        spec_inputs(pipes, m, root) == spec_inputs(pipes.subrange(0, i), m, root),
    decreases pipes.len() - i,
{
    if i < pipes.len() {
        assert(pipes.subrange(0, i + 1).drop_last() =~= pipes.subrange(0, i));
        lemma_inputs_err_stays(pipes, m, root, i + 1);
    } else {
        assert(pipes.subrange(0, pipes.len() as int) =~= pipes);
    }
}

/// Shape of a successful destination list: one destination per section
/// entry, in order, each at `root/<key>` with its entry's write config.
pub proof fn lemma_outputs_ok_shape(
    entries: Seq<(Seq<char>, Seq<char>)>,
    root: Seq<char>,
    v: Seq<(Seq<char>, Config)>,
)
    requires
        spec_outputs(entries, root) == Ok::<Seq<(Seq<char>, Config)>, Seq<char>>(v),
    ensures
        v.len() == entries.len(),
        forall|i: int| 0 <= i < entries.len() ==> (#[trigger] v[i]).0 == root + "/"@
            + entries[i].0,
        forall|i: int| 0 <= i < entries.len() ==> Ok::<Config, Seq<char>>((#[trigger] v[i]).1)
            == spec_write_config(entries[i].1),
    decreases entries.len(),
{
    if entries.len() > 0 {
        let rest = spec_outputs(entries.drop_last(), root)->Ok_0;
        lemma_outputs_ok_shape(entries.drop_last(), root, rest);
        assert forall|i: int| 0 <= i < entries.len() implies (#[trigger] v[i]).0 == root + "/"@
            + entries[i].0 && Ok::<Config, Seq<char>>(v[i].1) == spec_write_config(
            entries[i].1,
        ) by {
            if i < entries.len() - 1 {
                assert(entries.drop_last()[i] == entries[i]);
                assert(v[i] == rest[i]);
            } else {
                assert(entries.last() == entries[i]);
            }
        }
    }
}

/// Shape of a successful source list: one source per `[PIPES]` entry, in
/// order, each at `root/<name>` with its entry's read config and the
/// destinations of its matching section.
pub proof fn lemma_inputs_ok_shape(
    pipes: Seq<(Seq<char>, Seq<char>)>,
    m: IniModel,
    root: Seq<char>,
    v: Seq<(Seq<char>, Config, Seq<(Seq<char>, Config)>)>,
)
    requires
        spec_inputs(pipes, m, root) == Ok::<
            Seq<(Seq<char>, Config, Seq<(Seq<char>, Config)>)>,
            Seq<char>,
        >(v),
    ensures
        v.len() == pipes.len(),
        forall|i: int| 0 <= i < pipes.len() ==> (#[trigger] v[i]).0 == root + "/"@ + pipes[i].0,
        forall|i: int| 0 <= i < pipes.len() ==> Ok::<Config, Seq<char>>((#[trigger] v[i]).1)
            == spec_read_config(pipes[i].1),
        forall|i: int| 0 <= i < pipes.len() && m.contains_key(pipes[i].0) ==> spec_outputs(
            m[pipes[i].0],
            root,
        ) == Ok::<Seq<(Seq<char>, Config)>, Seq<char>>((#[trigger] v[i]).2),
        forall|i: int| 0 <= i < pipes.len() && !m.contains_key(pipes[i].0) ==> (#[trigger] v[i]).2
            == Seq::<(Seq<char>, Config)>::empty(),
    decreases pipes.len(),
{
    if pipes.len() > 0 {
        let rest = spec_inputs(pipes.drop_last(), m, root)->Ok_0;
        lemma_inputs_ok_shape(pipes.drop_last(), m, root, rest);
        assert forall|i: int| 0 <= i < pipes.len() - 1 implies pipes.drop_last()[i]
            == pipes[i] && (#[trigger] v[i]) == rest[i] by {}
    }
}

/// Law: a well-formed document yields exactly one source per `[PIPES]`
/// entry, and each source carries one destination per entry of its matching
/// section (none when that section is absent), every pipe path lying under
/// the root directory.
pub proof fn lemma_config_round_trip(
    m: IniModel,
    v: Seq<(Seq<char>, Config, Seq<(Seq<char>, Config)>)>,
)
    requires
        m.contains_key("PIPES"@),
        spec_parse(m) == Ok::<Seq<(Seq<char>, Config, Seq<(Seq<char>, Config)>)>, Seq<char>>(v),
    ensures
        v.len() == m["PIPES"@].len(),
        forall|i: int| 0 <= i < v.len() ==> (#[trigger] v[i]).2.len() == (if m.contains_key(
            m["PIPES"@][i].0,
        ) {
            m[m["PIPES"@][i].0].len()
        } else {
            0
        }),
        forall|i: int| 0 <= i < v.len() ==> (#[trigger] v[i]).0 == spec_root(m) + "/"@
            + m["PIPES"@][i].0,
{
    let pipes = m["PIPES"@];
    let root = spec_root(m);
    lemma_inputs_ok_shape(pipes, m, root, v);
    assert forall|i: int| 0 <= i < v.len() implies (#[trigger] v[i]).2.len() == (
    if m.contains_key(pipes[i].0) {
        m[pipes[i].0].len()
    } else {
        0
    }) by {
        if m.contains_key(pipes[i].0) {
            lemma_outputs_ok_shape(m[pipes[i].0], root, v[i].2);
        }
    }
}

impl Parser {
    /// The root directory named by the document, or the fixed fallback.
    pub fn get_root_directory(conf: &ini::Ini) -> (root: String)
        ensures
            root@ == spec_root(ini_sections(*conf)),
    {
        match ini_section_entries(conf, "DEFAULT") {
            None => String::from_str("/tmp/cvnpipes"),
            Some(entries) => {
                let ghost ev = entries_view(entries@);
                let key = String::from_str("root");
                let mut i: usize = 0;
                while i < entries.len()
                    invariant
                        i <= entries@.len(),
                        ev == entries_view(entries@),
                        ev == ini_sections(*conf)["DEFAULT"@],
                        ini_sections(*conf).contains_key("DEFAULT"@),
                        key@ == "root"@,
                        forall|j: int| 0 <= j < i ==> ev[j].0 != "root"@,
                    decreases entries@.len() - i,
                {
                    if entries[i].0 == key {
                        proof {
                            lemma_first_value_skip(ev, "root"@, i as int);
                            assert(ev.subrange(i as int, ev.len() as int)[0] == ev[i as int]);
                        }
                        return entries[i].1.clone();
                    }
                    i = i + 1;
                }
                proof {
                    lemma_first_value_skip(ev, "root"@, ev.len() as int);
                }
                String::from_str("/tmp/cvnpipes")
            },
        }
    }

    /// The destinations of one source: one per entry of the section named
    /// after the source, path `root/<key>`.
    pub fn get_split_outputs(conf: &ini::Ini, input_pipe: &str, root: &str) -> (r: Result<
        Vec<SplitOut>,
        Error,
    >)
        ensures
            match r {
                Ok(v) => if ini_sections(*conf).contains_key(input_pipe@) {
                    spec_outputs(ini_sections(*conf)[input_pipe@], root@) == Ok::<
                        Seq<(Seq<char>, Config)>,
                        Seq<char>,
                    >(out_views(v@))
                } else {
                    v@.len() == 0
                },
                Err(Error::Configuration(msg)) => ini_sections(*conf).contains_key(input_pipe@)
                    && spec_outputs(ini_sections(*conf)[input_pipe@], root@) == Err::<
                    Seq<(Seq<char>, Config)>,
                    Seq<char>,
                >(msg@),
                Err(Error::Ini(_)) => false,
            },
    {
        match ini_section_entries(conf, input_pipe) {
            None => Ok(Vec::new()),
            Some(entries) => {
                let ghost ev = entries_view(entries@);
                let mut out_puts: Vec<SplitOut> = Vec::new();
                proof {
                    assert(ev.subrange(0, 0) =~= Seq::<(Seq<char>, Seq<char>)>::empty());
                    assert(out_views(out_puts@) =~= Seq::<(Seq<char>, Config)>::empty());
                }
                let mut i: usize = 0;
                while i < entries.len()
                    invariant
                        i <= entries@.len(),
                        ev == entries_view(entries@),
                        ev == ini_sections(*conf)[input_pipe@],
                        ini_sections(*conf).contains_key(input_pipe@),
                        spec_outputs(ev.subrange(0, i as int), root@) == Ok::<
                            Seq<(Seq<char>, Config)>,
                            Seq<char>,
                        >(out_views(out_puts@)),
                    decreases entries@.len() - i,
                {
                    proof {
                        assert(ev.subrange(0, i + 1).drop_last() =~= ev.subrange(0, i as int));
                        assert(ev.subrange(0, i + 1).last() == ev[i as int]);
                    }
                    let configuration = match Parser::get_write_config(entries[i].1.as_str()) {
                        Ok(c) => c,
                        Err(e) => {
                            proof {
                                lemma_outputs_err_stays(ev, root@, i + 1);
                            }
                            return Err(e);
                        },
                    };
                    let pipe = String::from_str(root).concat("/").concat(entries[i].0.as_str());
                    let ghost prev = out_puts@;
                    out_puts.push(SplitOut { pipe, configuration });
                    proof {
                        assert(out_views(out_puts@) =~= out_views(prev).push(
                            (root@ + "/"@ + ev[i as int].0, configuration),
                        ));
                    }
                    i = i + 1;
                }
                proof {
                    assert(ev.subrange(0, ev.len() as int) =~= ev);
                }
                Ok(out_puts)
            },
        }
    }

    /// The sources the `[PIPES]` entries describe, with their destinations.
    pub fn get_split_inputs(root: &str, input_pipes: &Vec<(String, String)>, conf: &ini::Ini) -> (r:
        Result<Vec<SplitIn>, Error>)
        ensures
            matches_parse_result(
                r,
                spec_inputs(entries_view(input_pipes@), ini_sections(*conf), root@),
            ),
    {
        let ghost pv = entries_view(input_pipes@);
        let ghost m = ini_sections(*conf);
        let mut split_configs: Vec<SplitIn> = Vec::new();
        proof {
            assert(pv.subrange(0, 0) =~= Seq::<(Seq<char>, Seq<char>)>::empty());
            assert(in_views(split_configs@) =~= Seq::<
                (Seq<char>, Config, Seq<(Seq<char>, Config)>),
            >::empty());
        }
        let mut i: usize = 0;
        while i < input_pipes.len()
            invariant
                i <= input_pipes@.len(),
                pv == entries_view(input_pipes@),
                m == ini_sections(*conf),
                spec_inputs(pv.subrange(0, i as int), m, root@) == Ok::<
                    Seq<(Seq<char>, Config, Seq<(Seq<char>, Config)>)>,
                    Seq<char>,
                >(in_views(split_configs@)),
            decreases input_pipes@.len() - i,
        {
            proof {
                assert(pv.subrange(0, i + 1).drop_last() =~= pv.subrange(0, i as int));
                assert(pv.subrange(0, i + 1).last() == pv[i as int]);
            }
            let configuration = match Parser::get_read_config(input_pipes[i].1.as_str()) {
                Ok(c) => c,
                Err(e) => {
                    proof {
                        lemma_inputs_err_stays(pv, m, root@, i + 1);
                    }
                    return Err(e);
                },
            };
            let outputs = match Parser::get_split_outputs(conf, input_pipes[i].0.as_str(), root) {
                Ok(v) => v,
                Err(e) => {
                    proof {
                        lemma_inputs_err_stays(pv, m, root@, i + 1);
                    }
                    return Err(e);
                },
            };
            proof {
                if !m.contains_key(pv[i as int].0) {
                    assert(out_views(outputs@) =~= Seq::<(Seq<char>, Config)>::empty());
                }
            }
            let pipe = String::from_str(root).concat("/").concat(input_pipes[i].0.as_str());
            let ghost prev = split_configs@;
            let ghost ov = out_views(outputs@);
            split_configs.push(SplitIn { pipe, configuration, outputs });
            proof {
                assert(in_views(split_configs@) =~= in_views(prev).push(
                    (root@ + "/"@ + pv[i as int].0, configuration, ov),
                ));
            }
            i = i + 1;
        }
        proof {
            assert(pv.subrange(0, pv.len() as int) =~= pv);
        }
        Ok(split_configs)
    }

    /// Turn a parsed document into the splitting configuration: the sources
    /// of `[PIPES]`, or the configuration error the document earns.
    pub fn parse_config(conf: &ini::Ini) -> (r: Result<Vec<SplitIn>, Error>)
        ensures
            matches_parse_result(r, spec_parse(ini_sections(*conf))),
    {
        let root = Self::get_root_directory(conf);

        let input_pipes = match ini_section_entries(conf, "PIPES") {
            Some(arg) => arg,
            None => {
                return Err(Error::Configuration(String::from_str(
                    "configuration must contain a 'PIPES' section",
                )));
            },
        };

        Self::get_split_inputs(root.as_str(), &input_pipes, conf)
    }

    /// Load a splitting configuration from INI text.
    pub fn load_from_str(content: &str) -> (r: Result<Vec<SplitIn>, Error>)
        ensures
            match ini_parse(content@) {
                Some(m) => matches_parse_result(r, spec_parse(m)),
                None => r matches Err(Error::Ini(_)),
            },
    {
        match load_ini_str(content) {
            Ok(conf) => Self::parse_config(&conf),
            Err(msg) => Err(Error::Ini(msg)),
        }
    }

    /// Load a splitting configuration from an INI file, together with the
    /// root directory everything lives under.
    pub fn load_from_file_with_root(file_path: &str) -> (r: Result<(String, Vec<SplitIn>), Error>)
        ensures
            r matches Ok(p) ==> exists|m: IniModel|
                {
                    &&& #[trigger] spec_parse(m) == Ok::<
                        Seq<(Seq<char>, Config, Seq<(Seq<char>, Config)>)>,
                        Seq<char>,
                    >(in_views(p.1@))
                    &&& p.0@ == spec_root(m)
                },
    {
        let conf = match load_ini_file(file_path) {
            Ok(value) => value,
            Err(msg) => {
                return Err(Error::Ini(msg));
            },
        };

        let root = Self::get_root_directory(&conf);
        match Self::parse_config(&conf) {
            Ok(v) => {
                proof {
                    let m = ini_sections(conf);
                    assert(spec_parse(m) == Ok::<
                        Seq<(Seq<char>, Config, Seq<(Seq<char>, Config)>)>,
                        Seq<char>,
                    >(in_views(v@)));
                }
                Ok((root, v))
            },
            Err(e) => Err(e),
        }
    }

    /// Load a splitting configuration from an INI file.
    pub fn load_from_file(file_path: &str) -> (r: Result<Vec<SplitIn>, Error>)
        ensures
            r matches Ok(v) ==> exists|m: IniModel| #[trigger] spec_parse(m) == Ok::<
                Seq<(Seq<char>, Config, Seq<(Seq<char>, Config)>)>,
                Seq<char>,
            >(in_views(v@)),
    {
        match Self::load_from_file_with_root(file_path) {
            Ok(p) => Ok(p.1),
            Err(e) => Err(e),
        }
    }
}

} // verus!
