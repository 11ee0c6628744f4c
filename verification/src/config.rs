//! The config-file text format: one recognized `db=<name>` line, every other
//! line ignored, and the round-trip law between writing and loading.

use vstd::prelude::*;
use vstd::string::StrSliceExecFns;
use vstd::string::StringExecFns;

use crate::domain::Settings;
use crate::domain::TodoError;
use crate::domain::TodoErrorType;
use crate::domain::TodoResponse;
use crate::persistence::db_action;
use crate::persistence::init_db;
use crate::persistence::CrudAction;
use crate::persistence::Response;
use crate::text::find_char_in;
use crate::text::find_first;
use crate::text::lemma_find_first;
use crate::text::str_eq;
use crate::text::strip_suffix;
use crate::text::strip_suffix_spec;
use crate::text::trim;
use crate::text::trim_spec;

verus! {

/// The well-known name of the config file in the working directory.
pub fn config_file_name() -> (r: &'static str)
    ensures
        r@ == "app.conf"@,
{
    "app.conf"
}

/// The text up to (not including) the first line feed, or all of `s`.
pub open spec fn first_line(s: Seq<char>) -> Seq<char> {
    match find_first(s, '\n') {
        None => s,
        Some(i) => s.take(i),
    }
}

/// The text after the first line feed; empty when there is none.
pub open spec fn rest_lines(s: Seq<char>) -> Seq<char> {
    match find_first(s, '\n') {
        None => Seq::empty(),
        Some(i) => s.skip(i + 1),
    }
}

/// One line's effect on the resolved db name: a line with no `=` is skipped,
/// a `db` key replaces the name with the trimmed value, any other key is
/// ignored.
pub open spec fn apply_line(l: Seq<char>, acc: Seq<char>) -> Seq<char> {
    match find_first(l, '=') {
        None => acc,
        Some(i) => if l.take(i) == "db"@ {
            trim_spec(l.skip(i + 1))
        } else {
            acc
        },
    }
}

/// The db name that parsing `s` line by line resolves, starting from `acc`;
/// the last `db` line wins.
pub open spec fn parse_db_rec(s: Seq<char>, acc: Seq<char>) -> Seq<char>
    decreases s.len(),
    via parse_db_rec_dec
{
    if s.len() == 0 {
        acc
    } else {
        parse_db_rec(rest_lines(s), apply_line(first_line(s), acc))
    }
}

#[via_fn]
proof fn parse_db_rec_dec(s: Seq<char>, acc: Seq<char>) {
    lemma_find_first(s, '\n');
}

/// Parses config-file content and returns the resolved logical db name,
/// falling back to the built-in default.
pub fn parse_db_name(content: &str) -> (r: String)
    ensures
        r@ == parse_db_rec(content@, "todo"@),
{
    let mut db = String::from_str("todo");
    let n = content.unicode_len();
    let mut pos: usize = 0;
    proof {
        assert(content@.skip(0) =~= content@);
    }
    while pos < n
        invariant
            pos <= n,
            n == content@.len(),
            parse_db_rec(content@.skip(pos as int), db@) == parse_db_rec(content@, "todo"@),
        decreases n - pos,
    {
        let ghost sfx = content@.skip(pos as int);
        let line_end: usize = match find_char_in(content, pos, n, '\n') {
            Some(i) => i,
            None => n,
        };
        proof {
            lemma_find_first(sfx, '\n');
            assert forall|j: int| 0 <= j < line_end - pos implies sfx[j] != '\n' by {
                assert(sfx[j] == content@[j + pos]);
            }
            if line_end < n {
                assert(sfx[line_end - pos] == content@[line_end as int]);
                assert(find_first(sfx, '\n') == Some(line_end - pos));
            } else {
                assert(find_first(sfx, '\n') is None);
            }
            assert(first_line(sfx) =~= content@.subrange(pos as int, line_end as int));
        }
        let eq_pos = find_char_in(content, pos, line_end, '=');
        let ghost line = content@.subrange(pos as int, line_end as int);
        proof {
            lemma_find_first(line, '=');
            match eq_pos {
                Some(e) => {
                    assert(line[e - pos] == content@[e as int]);
                    assert forall|j: int| 0 <= j < e - pos implies line[j] != '=' by {
                        assert(line[j] == content@[j + pos]);
                    }
                    assert(find_first(line, '=') == Some(e - pos));
                },
                None => {
                    assert forall|j: int| 0 <= j < line.len() implies line[j] != '=' by {
                        assert(line[j] == content@[j + pos]);
                    }
                    assert(find_first(line, '=') is None);
                },
            }
        }
        let ghost db_before = db@;
        match eq_pos {
            Some(e) => {
                let key = content.substring_char(pos, e);
                proof {
                    assert(key@ =~= line.take(e - pos));
                }
                if str_eq(key, "db") {
                    let value = content.substring_char(e + 1, line_end);
                    proof {
                        assert(value@ =~= line.skip(e - pos + 1));
                    }
                    db = trim(value);
                }
            },
            None => {},
        }
        proof {
            assert(db@ == apply_line(line, db_before));
            if line_end < n {
                assert(rest_lines(sfx) =~= content@.skip(line_end + 1));
            } else {
                assert(rest_lines(sfx) =~= content@.skip(n as int));
            }
            assert(parse_db_rec(sfx, db_before) == parse_db_rec(rest_lines(sfx), db@));
        }
        if line_end < n {
            pos = line_end + 1;
        } else {
            pos = n;
        }
    }
    proof {
        assert(content@.skip(n as int) =~= Seq::<char>::empty());
    }
    db
}

impl Settings {
    /// The text written to the config file: `db=` followed by the logical
    /// name (without the store suffix) and a line feed.
    pub fn config_text(&self) -> (r: String)
        ensures
            r@ == "db="@ + strip_suffix_spec(self.db@, ".store"@) + "\n"@,
    {
        let base = strip_suffix(self.db.as_str(), ".store");
        String::from_str("db=").concat(base.as_str()).concat("\n")
    }

    /// Builds `Settings` from config-file content, when the file could be
    /// read; a missing file is reported as "not yet initialized". A loaded
    /// configuration is marked saved.
    pub fn load_config(content: Option<&str>) -> (r: Result<Settings, TodoError>)
        ensures
            (content matches Some(c) ==> r matches Ok(s) && s.db@ == parse_db_rec(
                c@,
                "todo"@,
            ) && s.is_saved),
            content is None ==> (r matches Err(e) && e.error_type is InitNotAvailable),
    {
        match content {
            Some(c) => Ok(Settings::create(parse_db_name(c), true)),
            None => Err(TodoError::build(TodoErrorType::InitNotAvailable)),
        }
    }
}

impl Settings {
    /// Probes the store at `db` for liveness; any other outcome than a
    /// completed probe is reported as the not-initialized error.
    pub fn test_setup(&self, db: String) -> (r: Result<TodoResponse, TodoError>)
        ensures
            r matches Ok(t) ==> t is Done,
            r matches Err(e) ==> (e.error_type is InitNotAvailable && e.msg@
                == "Please initialize application,use help"@),
    {
        match db_action(CrudAction::HealthCheck, db) {
            Response::Success => Ok(TodoResponse::Done),
            _ => Err(TodoError::build(TodoErrorType::InitNotAvailable)),
        }
    }

    /// Creates the store schema at this configuration's physical path; any
    /// failure is reported as an initialization failure.
    pub fn initalize_db(&self) -> (r: Result<TodoResponse, TodoError>)
        ensures
            r matches Ok(t) ==> t is Done,
            r matches Err(e) ==> (e.error_type is UnableToInitialize && e.msg@
                == "Unable to initizlize application, contact support"@),
    {
        let db = self.get_db();
        match init_db(&db) {
            Ok(_) => Ok(TodoResponse::Done),
            Err(_) => Err(TodoError::build(TodoErrorType::UnableToInitialize)),
        }
    }
}

/// The setup router's `Test` arm: requires a configuration that was loaded
/// from disk, and fails at once — without touching the store — when there is
/// none; otherwise delegates to the health probe at the derived path.
pub fn test_router(configuration: &Settings) -> (r: Result<TodoResponse, TodoError>)
    ensures
        !configuration.is_saved ==> (r matches Err(e) && e.error_type is TestFailed && e.msg@
            == "Database check has failed"@),
        configuration.is_saved ==> ((r matches Ok(t) && t is Done) || (r matches Err(e)
            && e.error_type is InitNotAvailable && e.msg@
            == "Please initialize application,use help"@)),
{
    if configuration.is_config_available() {
        configuration.test_setup(configuration.get_db())
    } else {
        Err(TodoError::build(TodoErrorType::TestFailed))
    }
}

/// The setup router's `Init` arm as a state machine: ensure the config file
/// exists, write the current settings into it, create the store schema. The
/// caller performs each pending step's file or store work and reports back
/// whether it succeeded; the pipeline short-circuits on the first failure.
#[derive(Clone, Copy, Debug, PartialEq, Eq, Structural)]
pub enum InitState {
    NeedConfigFile,
    NeedConfigWrite,
    NeedStoreInit,
    Completed,
    Failed,
}

/// The state the init pipeline starts in.
pub fn init_start() -> (r: InitState)
    ensures
        r is NeedConfigFile,
{
    InitState::NeedConfigFile
}

/// One transition of the init pipeline: a failed step moves to `Failed`
/// for good; a successful step moves on to the next, then to `Completed`.
pub open spec fn init_advance_spec(state: InitState, step_ok: bool) -> InitState {
    match state {
        InitState::NeedConfigFile => if step_ok {
            InitState::NeedConfigWrite
        } else {
            InitState::Failed
        },
        InitState::NeedConfigWrite => if step_ok {
            InitState::NeedStoreInit
        } else {
            InitState::Failed
        },
        InitState::NeedStoreInit => if step_ok {
            InitState::Completed
        } else {
            InitState::Failed
        },
        InitState::Completed => InitState::Completed,
        InitState::Failed => InitState::Failed,
    }
}

/// Advances the init pipeline by one reported step outcome.
pub fn init_advance(state: InitState, step_ok: bool) -> (r: InitState)
    ensures
        r == init_advance_spec(state, step_ok),
{
    match state {
        InitState::NeedConfigFile => if step_ok {
            InitState::NeedConfigWrite
        } else {
            InitState::Failed
        },
        InitState::NeedConfigWrite => if step_ok {
            InitState::NeedStoreInit
        } else {
            InitState::Failed
        },
        InitState::NeedStoreInit => if step_ok {
            InitState::Completed
        } else {
            InitState::Failed
        },
        InitState::Completed => InitState::Completed,
        InitState::Failed => InitState::Failed,
    }
}

/// The pipeline's result once no step is pending: `Done` after completion,
/// the initialization failure after any failed step, nothing while a step is
/// still pending.
pub fn init_outcome(state: InitState) -> (r: Option<Result<TodoResponse, TodoError>>)
    ensures
        state is Completed ==> (r matches Some(o) && o matches Ok(t) && t is Done),
        state is Failed ==> (r matches Some(o) && o matches Err(e)
            && e.error_type is UnableToInitialize && e.msg@
            == "Unable to initizlize application, contact support"@),
        !(state is Completed) && !(state is Failed) ==> r is None,
{
    match state {
        InitState::Completed => Some(Ok(TodoResponse::Done)),
        InitState::Failed => Some(Err(TodoError::build(TodoErrorType::UnableToInitialize))),
        _ => None,
    }
}

/// Law: the init pipeline is a fail-fast AND-sequence — running its three
/// steps completes exactly when every step succeeded, and fails otherwise.
pub proof fn lemma_init_pipeline(a: bool, b: bool, c: bool)
    ensures
        init_advance_spec(init_advance_spec(init_advance_spec(InitState::NeedConfigFile, a), b), c)
            == (if a && b && c {
            InitState::Completed
        } else {
            InitState::Failed
        }),
{
}

/// Law: loading the text that `config_text` writes recovers the logical db
/// name without the store suffix, whatever name was resolved before, provided
/// that name holds no line feed and no surrounding whitespace.
pub proof fn lemma_config_round_trip(s: Settings, acc: Seq<char>)
    requires
        forall|j: int| 0 <= j < strip_suffix_spec(s.db@, ".store"@).len()
            ==> strip_suffix_spec(s.db@, ".store"@)[j] != '\n',
        trim_spec(strip_suffix_spec(s.db@, ".store"@)) == strip_suffix_spec(s.db@, ".store"@),
    ensures
        parse_db_rec("db="@ + strip_suffix_spec(s.db@, ".store"@) + "\n"@, acc)
            == strip_suffix_spec(s.db@, ".store"@),
{
    let base = strip_suffix_spec(s.db@, ".store"@);
    let content = "db="@ + base + "\n"@;
    reveal_strlit("db=");
    reveal_strlit("db");
    reveal_strlit("\n");
    assert(content.len() == 3 + base.len() + 1);
    assert(content[3 + base.len() as int] == '\n');
    lemma_find_first(content, '\n');
    assert forall|j: int| 0 <= j < 3 + base.len() implies content[j] != '\n' by {
        if j >= 3 {
            assert(content[j] == base[j - 3]);
        }
    }
    assert(find_first(content, '\n') == Some(3 + base.len() as int));
    let line = content.take(3 + base.len() as int);
    assert(first_line(content) == line);
    assert(rest_lines(content) =~= Seq::<char>::empty());
    lemma_find_first(line, '=');
    assert(line[2] == '=');
    assert(line[0] == 'd' && line[1] == 'b');
    assert(find_first(line, '=') == Some(2int));
    assert(line.take(2) =~= "db"@);
    assert(line.skip(3) =~= base);
    assert(apply_line(line, acc) == trim_spec(base));
    assert(parse_db_rec(content, acc) == parse_db_rec(Seq::<char>::empty(), trim_spec(base)));
}

} // verus!
