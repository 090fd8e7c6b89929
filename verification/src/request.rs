//! The messages that open a run.

use vstd::prelude::*;

use crate::cbor;
use crate::cbor::{CborValue, Tree};
use crate::settings;
use crate::settings::{
    health_check_as_str, phase_as_str, Database, HealthCheck, Phase, Settings,
};

verus! {

/// The entry of a map under the text key `key`.
pub open spec fn entry(key: Seq<char>, value: Tree) -> (Tree, Tree) {
    (Tree::Text(key), value)
}

/// `seed` as the server reads it.
pub open spec fn seed_tree(seed: Option<u64>) -> Tree {
    match seed {
        Some(seed) => Tree::Integer(seed as int),
        None => Tree::Null,
    }
}

/// `database_key` as the server reads it: the bytes of its UTF-8 form.
pub open spec fn database_key_tree(database_key: Option<Seq<char>>) -> Tree {
    match database_key {
        Some(key) => Tree::Bytes(vstd::utf8::encode_utf8(key)),
        None => Tree::Null,
    }
}

/// The entry that says where the server keeps failures; none leaves it the choice.
pub open spec fn database_entries(database: Database) -> Seq<(Tree, Tree)> {
    match database {
        Database::Unset => seq![],
        Database::Disabled => seq![entry("database"@, Tree::Null)],
        Database::Path(path) => seq![entry("database"@, Tree::Text(path@))],
    }
}

/// The names of health checks.
pub open spec fn health_check_names(checks: Seq<HealthCheck>) -> Tree {
    Tree::Array(Seq::new(checks.len(), |i: int| Tree::Text(checks[i].name())))
}

/// The entry that switches health checks off, where any are.
pub open spec fn suppress_entries(checks: Seq<HealthCheck>) -> Seq<(Tree, Tree)> {
    if checks.len() == 0 {
        seq![]
    } else {
        seq![entry("suppress_health_check"@, health_check_names(checks))]
    }
}

/// The names of phases.
pub open spec fn phase_names(phases: Seq<Phase>) -> Tree {
    Tree::Array(Seq::new(phases.len(), |i: int| Tree::Text(phases[i].name())))
}

/// The message that opens a run with `settings`, whose events come on stream
/// `stream_id`.
pub open spec fn run_test_tree(
    settings: Settings,
    database_key: Option<Seq<char>>,
    stream_id: u32,
) -> Tree {
    Tree::Mapping(
        seq![
            entry("command"@, Tree::Text("run_test"@)),
            entry("test_cases"@, Tree::Integer(settings.test_cases as int)),
            entry("seed"@, seed_tree(settings.seed)),
            entry("stream_id"@, Tree::Integer(stream_id as int)),
            entry("database_key"@, database_key_tree(database_key)),
            entry("derandomize"@, Tree::Bool(settings.derandomize)),
        ] + database_entries(settings.database) + suppress_entries(
            settings.suppress_health_check@,
        ) + seq![entry("phases"@, phase_names(settings.phases@))],
    )
}

/// The message that opens a run of one test case, whose events come on stream
/// `stream_id`.
pub open spec fn single_test_case_tree(seed: Option<u64>, stream_id: u32) -> Tree {
    Tree::Mapping(
        seq![
            entry("command"@, Tree::Text("single_test_case"@)),
            entry("stream_id"@, Tree::Integer(stream_id as int)),
        ] + match seed {
            Some(seed) => seq![entry("seed"@, Tree::Integer(seed as int))],
            None => seq![],
        },
    )
}

/// The message that answers an event with `result`.
pub open spec fn ack_tree(result: Tree) -> Tree {
    Tree::Mapping(seq![entry("result"@, result)])
}

/// Adds an entry under the text key `key`.
fn map_insert(entries: &mut Vec<(CborValue, CborValue)>, key: &str, value: CborValue)
    ensures
        cbor::entry_trees(final(entries)@) == cbor::entry_trees(old(entries)@).push(
            entry(key@, value@),
        ),
{
    entries.push((CborValue::Text(key.to_owned()), value));
    assert(cbor::entry_trees(entries@) =~= cbor::entry_trees(old(entries)@).push(
        entry(key@, value@),
    ));
}

fn health_check_array(checks: &Vec<HealthCheck>) -> (res: CborValue)
    ensures
        res@ == health_check_names(checks@),
{
    let mut names: Vec<CborValue> = Vec::new();
    let mut i: usize = 0;
    while i < checks.len()
        invariant
            i <= checks@.len(),
            names@.len() == i,
            forall|j: int| 0 <= j < i ==> (#[trigger] names@[j])@ == Tree::Text(checks@[j].name()),
        decreases checks@.len() - i,
    {
        names.push(CborValue::Text(health_check_as_str(&checks[i]).to_owned()));
        i += 1;
    }
    let res = CborValue::Array(names);
    assert(res@->Array_0 =~= health_check_names(checks@)->Array_0);
    res
}

fn phase_array(phases: &Vec<Phase>) -> (res: CborValue)
    ensures
        res@ == phase_names(phases@),
{
    let mut names: Vec<CborValue> = Vec::new();
    let mut i: usize = 0;
    while i < phases.len()
        invariant
            i <= phases@.len(),
            names@.len() == i,
            forall|j: int| 0 <= j < i ==> (#[trigger] names@[j])@ == Tree::Text(phases@[j].name()),
        decreases phases@.len() - i,
    {
        names.push(CborValue::Text(phase_as_str(&phases[i]).to_owned()));
        i += 1;
    }
    let res = CborValue::Array(names);
    assert(res@->Array_0 =~= phase_names(phases@)->Array_0);
    res
}

/// A message that opens a run can be written.
proof fn lemma_run_test_writable(
    settings: Settings,
    database_key: Option<Seq<char>>,
    stream_id: u32,
)
    ensures
        run_test_tree(settings, database_key, stream_id).writable(cbor::NESTING_LIMIT as nat),
{
    reveal_with_fuel(Tree::writable, 3);
    let entries = run_test_tree(settings, database_key, stream_id)->Mapping_0;
    assert(health_check_names(settings.suppress_health_check@).writable(255));
    assert(phase_names(settings.phases@).writable(255));
    assert forall|i: int| 0 <= i < entries.len() implies (#[trigger] entries[i]).0.writable(255)
        && entries[i].1.writable(255) by {
    }
}

/// Makes the message that opens a run.
pub fn run_test_message(settings: &Settings, database_key: Option<&str>, stream_id: u32) -> (res:
    CborValue)
    ensures
        res@ == run_test_tree(
            *settings,
            match database_key {
                Some(key) => Some(key@),
                None => None,
            },
            stream_id,
        ),
        res@.writable(cbor::NESTING_LIMIT as nat),
{
    let ghost expected = run_test_tree(
        *settings,
        match database_key {
            Some(key) => Some(key@),
            None => None,
        },
        stream_id,
    );
    let seed = match settings.seed {
        Some(seed) => CborValue::Integer(seed as i128),
        None => CborValue::Null,
    };
    let key = match database_key {
        Some(key) => CborValue::Bytes(key.as_bytes_vec()),
        None => CborValue::Null,
    };
    let mut entries: Vec<(CborValue, CborValue)> = Vec::new();
    map_insert(&mut entries, "command", CborValue::Text("run_test".to_owned()));
    map_insert(&mut entries, "test_cases", CborValue::Integer(settings.test_cases as i128));
    map_insert(&mut entries, "seed", seed);
    map_insert(&mut entries, "stream_id", CborValue::Integer(stream_id as i128));
    map_insert(&mut entries, "database_key", key);
    map_insert(&mut entries, "derandomize", CborValue::Bool(settings.derandomize));
    match &settings.database {
        Database::Unset => {},
        Database::Disabled => map_insert(&mut entries, "database", CborValue::Null),
        Database::Path(path) => map_insert(
            &mut entries,
            "database",
            CborValue::Text(path.clone()),
        ),
    }
    if settings.suppress_health_check.len() > 0 {
        map_insert(
            &mut entries,
            "suppress_health_check",
            health_check_array(&settings.suppress_health_check),
        );
    }
    map_insert(&mut entries, "phases", phase_array(&settings.phases));
    proof {
        assert(cbor::entry_trees(entries@) =~= expected->Mapping_0);
        cbor::lemma_mapping_tree(entries);
        lemma_run_test_writable(
            *settings,
            match database_key {
                Some(key) => Some(key@),
                None => None,
            },
            stream_id,
        );
    }
    CborValue::Mapping(entries)
}

/// Makes the message that opens a run of one test case.
pub fn single_test_case_message(seed: Option<u64>, stream_id: u32) -> (res: CborValue)
    ensures
        res@ == single_test_case_tree(seed, stream_id),
        res@.writable(cbor::NESTING_LIMIT as nat),
{
    let mut entries: Vec<(CborValue, CborValue)> = Vec::new();
    map_insert(&mut entries, "command", CborValue::Text("single_test_case".to_owned()));
    map_insert(&mut entries, "stream_id", CborValue::Integer(stream_id as i128));
    if let Some(seed) = seed {
        map_insert(&mut entries, "seed", CborValue::Integer(seed as i128));
    }
    proof {
        assert(cbor::entry_trees(entries@) =~= single_test_case_tree(seed, stream_id)->Mapping_0);
        cbor::lemma_mapping_tree(entries);
        reveal_with_fuel(Tree::writable, 2);
    }
    CborValue::Mapping(entries)
}

/// Makes the message that answers an event with nothing.
pub fn ack_null() -> (res: CborValue)
    ensures
        res@ == ack_tree(Tree::Null),
        res@.writable(cbor::NESTING_LIMIT as nat),
{
    let mut entries: Vec<(CborValue, CborValue)> = Vec::new();
    map_insert(&mut entries, "result", CborValue::Null);
    proof {
        assert(cbor::entry_trees(entries@) =~= ack_tree(Tree::Null)->Mapping_0);
        cbor::lemma_mapping_tree(entries);
        reveal_with_fuel(Tree::writable, 2);
    }
    CborValue::Mapping(entries)
}

/// Makes the message that answers an event with `true`.
pub fn ack_true() -> (res: CborValue)
    ensures
        res@ == ack_tree(Tree::Bool(true)),
        res@.writable(cbor::NESTING_LIMIT as nat),
{
    let mut entries: Vec<(CborValue, CborValue)> = Vec::new();
    map_insert(&mut entries, "result", CborValue::Bool(true));
    proof {
        assert(cbor::entry_trees(entries@) =~= ack_tree(Tree::Bool(true))->Mapping_0);
        cbor::lemma_mapping_tree(entries);
        reveal_with_fuel(Tree::writable, 2);
    }
    CborValue::Mapping(entries)
}

/// The keys of the messages have different lengths.
proof fn lemma_key_lengths()
    ensures
        "command"@.len() == 7,
        "test_cases"@.len() == 10,
        "seed"@.len() == 4,
        "stream_id"@.len() == 9,
        "database_key"@.len() == 12,
        "derandomize"@.len() == 11,
        "database"@.len() == 8,
        "suppress_health_check"@.len() == 21,
        "phases"@.len() == 6,
{
    reveal_strlit("command");
    reveal_strlit("test_cases");
    reveal_strlit("seed");
    reveal_strlit("stream_id");
    reveal_strlit("database_key");
    reveal_strlit("derandomize");
    reveal_strlit("database");
    reveal_strlit("suppress_health_check");
    reveal_strlit("phases");
}

/// What the server finds under each key of the message that opens a run.
pub proof fn law_run_test_reads_back(
    settings: Settings,
    database_key: Option<Seq<char>>,
    stream_id: u32,
)
    ensures
        ({
            let message = run_test_tree(settings, database_key, stream_id);
            let checks = settings.suppress_health_check@;
            &&& message.get_text("command"@) == Some("run_test"@)
            &&& message.get_u64("test_cases"@) == Some(settings.test_cases)
            &&& message.get("command"@) == Some(Tree::Text("run_test"@))
            &&& message.get("test_cases"@) == Some(Tree::Integer(settings.test_cases as int))
            &&& message.get("seed"@) == Some(seed_tree(settings.seed))
            &&& message.get("seed"@) == match settings.seed {
                Some(seed) => Some(Tree::Integer(seed as int)),
                None => Some(Tree::Null),
            }
            &&& message.get_u64("stream_id"@) == Some(stream_id as u64)
            &&& message.get("stream_id"@) == Some(Tree::Integer(stream_id as int))
            &&& message.get("database_key"@) == Some(database_key_tree(database_key))
            &&& message.get("database_key"@) == match database_key {
                Some(key) => Some(Tree::Bytes(vstd::utf8::encode_utf8(key))),
                None => Some(Tree::Null),
            }
            &&& message.get("derandomize"@) == Some(Tree::Bool(settings.derandomize))
            &&& message.get_bool("derandomize"@) == Some(settings.derandomize)
            &&& message.get("database"@) == match settings.database {
                Database::Unset => None,
                Database::Disabled => Some(Tree::Null),
                Database::Path(path) => Some(Tree::Text(path@)),
            }
            &&& message.get("suppress_health_check"@) == if checks.len() == 0 {
                None
            } else {
                Some(health_check_names(checks))
            }
            &&& message.get("suppress_health_check"@) is None <==> checks.len() == 0
            &&& message.get("suppress_health_check"@) matches Some(names) ==> {
                &&& names matches Tree::Array(items)
                &&& items.len() == checks.len()
                &&& forall|i: int|
                    0 <= i < checks.len() ==> (#[trigger] items[i]) == Tree::Text(checks[i].name())
            }
            &&& message.get("phases"@) == Some(phase_names(settings.phases@))
            &&& message.get("phases"@) matches Some(Tree::Array(items)) && items.len()
                == settings.phases@.len() && forall|i: int|
                0 <= i < items.len() ==> (#[trigger] items[i]) == Tree::Text(
                    settings.phases@[i].name(),
                )
        }),
{
    lemma_key_lengths();
    let entries = run_test_tree(settings, database_key, stream_id)->Mapping_0;
    let databases = database_entries(settings.database).len() as int;
    let checks = settings.suppress_health_check@;
    cbor::lemma_lookup_first(entries, "command"@, 0);
    cbor::lemma_lookup_first(entries, "test_cases"@, 1);
    cbor::lemma_lookup_first(entries, "seed"@, 2);
    cbor::lemma_lookup_first(entries, "stream_id"@, 3);
    cbor::lemma_lookup_first(entries, "database_key"@, 4);
    cbor::lemma_lookup_first(entries, "derandomize"@, 5);
    if settings.database is Unset {
        cbor::lemma_lookup_none(entries, "database"@);
    } else {
        cbor::lemma_lookup_first(entries, "database"@, 6);
    }
    if checks.len() == 0 {
        cbor::lemma_lookup_none(entries, "suppress_health_check"@);
    } else {
        cbor::lemma_lookup_first(entries, "suppress_health_check"@, 6 + databases);
    }
    cbor::lemma_lookup_first(entries, "phases"@, entries.len() - 1);
}

/// What the server finds under each key of the message that opens a run of one
/// test case.
pub proof fn law_single_test_case_reads_back(seed: Option<u64>, stream_id: u32)
    ensures
        ({
            let message = single_test_case_tree(seed, stream_id);
            &&& message.get_text("command"@) == Some("single_test_case"@)
            &&& message.get("command"@) == Some(Tree::Text("single_test_case"@))
            &&& message.get_u64("stream_id"@) == Some(stream_id as u64)
            &&& message.get("stream_id"@) == Some(Tree::Integer(stream_id as int))
            &&& message.get("seed"@) == match seed {
                Some(seed) => Some(Tree::Integer(seed as int)),
                None => None,
            }
            &&& message.get("seed"@) is None <==> seed is None
            &&& message.get_u64("seed"@) == seed
        }),
{
    lemma_key_lengths();
    let entries = single_test_case_tree(seed, stream_id)->Mapping_0;
    cbor::lemma_lookup_first(entries, "command"@, 0);
    cbor::lemma_lookup_first(entries, "stream_id"@, 1);
    if seed is Some {
        cbor::lemma_lookup_first(entries, "seed"@, 2);
    } else {
        cbor::lemma_lookup_none(entries, "seed"@);
    }
}

/// The message that opens a run leaves nothing open: two runs with one message are
/// asked for the same.
pub proof fn law_run_test_says_all(
    a: Settings,
    key_a: Option<Seq<char>>,
    stream_a: u32,
    b: Settings,
    key_b: Option<Seq<char>>,
    stream_b: u32,
)
    requires
        run_test_tree(a, key_a, stream_a) == run_test_tree(b, key_b, stream_b),
    ensures
        a.test_cases == b.test_cases,
        a.seed == b.seed,
        stream_a == stream_b,
        key_a == key_b,
        a.derandomize == b.derandomize,
        database_entries(a.database) == database_entries(b.database),
        match (a.database, b.database) {
            (Database::Unset, Database::Unset) => true,
            (Database::Disabled, Database::Disabled) => true,
            (Database::Path(path_a), Database::Path(path_b)) => path_a@ == path_b@,
            _ => false,
        },
        a.suppress_health_check@ == b.suppress_health_check@,
        a.phases@ == b.phases@,
{
    law_run_test_reads_back(a, key_a, stream_a);
    law_run_test_reads_back(b, key_b, stream_b);
    assert(key_a == key_b) by {
        if key_a is Some {
            vstd::utf8::encode_utf8_decode_utf8(key_a->0);
        }
        if key_b is Some {
            vstd::utf8::encode_utf8_decode_utf8(key_b->0);
        }
    }
    let (names_a, names_b) = (phase_names(a.phases@)->Array_0, phase_names(b.phases@)->Array_0);
    assert(names_a.len() == names_b.len());
    assert forall|i: int| 0 <= i < a.phases@.len() implies a.phases@[i] == b.phases@[i] by {
        assert(names_a[i] == names_b[i]);
        settings::law_phase_names_differ(a.phases@[i], b.phases@[i]);
    }
    assert(a.phases@ =~= b.phases@);
    let (checks_a, checks_b) = (a.suppress_health_check@, b.suppress_health_check@);
    let (names_a, names_b) = (
        health_check_names(checks_a)->Array_0,
        health_check_names(checks_b)->Array_0,
    );
    assert(checks_a.len() > 0 ==> names_a.len() == names_b.len());
    assert forall|i: int| 0 <= i < checks_a.len() implies checks_a[i] == checks_b[i] by {
        assert(names_a[i] == names_b[i]);
        settings::law_health_check_names_differ(checks_a[i], checks_b[i]);
    }
    assert(checks_a =~= checks_b);
}

/// The keys of the message that opens a run, in their order: each stands there once, the
/// two that can be left out only where there is something to say, and no other.
pub proof fn law_run_test_keys(
    settings: Settings,
    database_key: Option<Seq<char>>,
    stream_id: u32,
)
    ensures
        run_test_tree(settings, database_key, stream_id) is Mapping,
        ({
            let entries = run_test_tree(settings, database_key, stream_id)->Mapping_0;
            let databases: int = if settings.database is Unset {
                0
            } else {
                1
            };
            let checks: int = if settings.suppress_health_check@.len() == 0 {
                0
            } else {
                1
            };
            &&& entries.len() == 7 + databases + checks
            &&& entries[0].0 == Tree::Text("command"@)
            &&& entries[1].0 == Tree::Text("test_cases"@)
            &&& entries[2].0 == Tree::Text("seed"@)
            &&& entries[3].0 == Tree::Text("stream_id"@)
            &&& entries[4].0 == Tree::Text("database_key"@)
            &&& entries[5].0 == Tree::Text("derandomize"@)
            &&& databases == 1 ==> entries[6].0 == Tree::Text("database"@)
            &&& checks == 1 ==> entries[6 + databases].0 == Tree::Text("suppress_health_check"@)
            &&& entries.last().0 == Tree::Text("phases"@)
            &&& forall|i: int, j: int|
                0 <= i < j < entries.len() ==> (#[trigger] entries[i]).0 != (#[trigger] entries[j]).0
        }),
{
    lemma_key_lengths();
}

/// The keys of the message that opens a run of one test case, in their order; that of the
/// seed stands there only where there is one.
pub proof fn law_single_test_case_keys(seed: Option<u64>, stream_id: u32)
    ensures
        single_test_case_tree(seed, stream_id) is Mapping,
        ({
            let entries = single_test_case_tree(seed, stream_id)->Mapping_0;
            &&& entries.len() == if seed is Some {
                3
            } else {
                2int
            }
            &&& entries[0].0 == Tree::Text("command"@)
            &&& entries[1].0 == Tree::Text("stream_id"@)
            &&& seed is Some ==> entries[2].0 == Tree::Text("seed"@)
        }),
{
}

/// Whoever reads an answer finds the result under its only key.
pub proof fn law_answer_reads_back(result: Tree)
    ensures
        ack_tree(result).get("result"@) == Some(result),
        ack_tree(result) matches Tree::Mapping(entries) && entries.len() == 1,
{
    cbor::lemma_lookup_first(ack_tree(result)->Mapping_0, "result"@, 0);
}

/// Whether two runs are asked for with one seed shows in their messages: these differ where
/// the seeds do, and nowhere else if all else is the same.
pub proof fn law_seed_shows_in_its_entry_alone(
    a: Settings,
    b: Settings,
    database_key: Option<Seq<char>>,
    stream_id: u32,
)
    requires
        a.mode == b.mode,
        a.test_cases == b.test_cases,
        a.derandomize == b.derandomize,
        a.database == b.database,
        a.suppress_health_check@ == b.suppress_health_check@,
        a.phases@ == b.phases@,
    ensures
        ({
            let entries_a = run_test_tree(a, database_key, stream_id)->Mapping_0;
            let entries_b = run_test_tree(b, database_key, stream_id)->Mapping_0;
            &&& entries_a.len() == entries_b.len()
            &&& forall|i: int|
                0 <= i < entries_a.len() && (#[trigger] entries_a[i]) != entries_b[i] ==> i == 2
                    && a.seed != b.seed
            &&& entries_a[2] == entries_b[2] <==> a.seed == b.seed
        }),
{
}

} // verus!
