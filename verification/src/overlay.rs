//! Laying a partial configuration over a complete one.
//!
//! The committed configuration documents every key; an optional local one names just the
//! keys that differ on a unit, and is merged over it key by key.
//!
//! Both are TOML. The `toml` crate parses them and holds their tables; what the two come to
//! together is decided here.

use vstd::prelude::*;

verus! {

/// What a key in a configuration holds.
pub enum Held {
    /// Anything but a table, as TOML writes it.
    Leaf(Seq<char>),
    /// A table.
    Table(Map<Seq<char>, Held>),
}

/// `toml::map::Map`, of which `toml::Table` is the one with string keys and TOML values.
/// Opaque: what a table holds is [`contents`].
#[verifier::external_type_specification]
#[verifier::external_body]
#[verifier::reject_recursive_types(K)]
#[verifier::reject_recursive_types(V)]
pub struct ExTomlMap<K, V>(toml::map::Map<K, V>);

/// `toml::Value`. Opaque: what a value holds is [`held`].
#[verifier::external_type_specification]
#[verifier::external_body]
pub struct ExTomlValue(toml::Value);

/// What a table holds, key by key.
pub uninterp spec fn contents(table: toml::Table) -> Map<Seq<char>, Held>;

/// What a value holds.
pub uninterp spec fn held(value: toml::Value) -> Held;

/// What parsing a text as TOML comes to: what the document's table holds, or the parser's
/// complaint.
pub uninterp spec fn parsed(text: Seq<char>) -> Result<Map<Seq<char>, Held>, Seq<char>>;

/// Parse a TOML document: `toml::Table`'s `FromStr`, with its error as text.
///
/// Claims that the result depends on the text alone. What the grammar makes of a text is
/// left unsaid.
#[verifier::external_body]
fn parse(text: &str) -> (table: Result<toml::Table, String>)
    ensures
        match table {
            Ok(table) => parsed(text@) == Ok::<Map<Seq<char>, Held>, Seq<char>>(contents(table)),
            Err(complaint) => parsed(text@) == Err::<Map<Seq<char>, Held>, Seq<char>>(
                complaint@,
            ),
        },
{
    text.parse::<toml::Table>().map_err(|err| err.to_string())
}

/// The entries of a table: `toml::map::Map`'s `IntoIterator`.
///
/// Claims that each key of the table comes out once, with its value, and nothing else does.
/// In which order is left unsaid.
#[verifier::external_body]
fn entries(table: toml::Table) -> (entries: Vec<(String, toml::Value)>)
    ensures
        forall|i: int, j: int|
            0 <= i < j < entries@.len() ==> (#[trigger] entries@[i]).0@ != (
            #[trigger] entries@[j]).0@,
        forall|i: int|
            0 <= i < entries@.len() ==> contents(table).dom().contains(
                (#[trigger] entries@[i]).0@,
            ) && contents(table)[entries@[i].0@] == held(entries@[i].1),
        forall|key: Seq<char>| #[trigger]
            contents(table).dom().contains(key) ==> exists|i: int|
                0 <= i < entries@.len() && (#[trigger] entries@[i]).0@ == key,
{
    table.into_iter().collect()
}

/// Take a key out of a table: `toml::map::Map::remove`.
///
/// Claims that the value is the one the key had, if it had one, and that the key is all that
/// leaves the table.
#[verifier::external_body]
fn remove(table: &mut toml::Table, key: &str) -> (value: Option<toml::Value>)
    ensures
        match value {
            Some(value) => contents(*old(table)).dom().contains(key@) && contents(
                *old(table),
            )[key@] == held(value),
            None => !contents(*old(table)).dom().contains(key@),
        },
        contents(*final(table)) == contents(*old(table)).remove(key@),
{
    table.remove(key)
}

/// Set a key in a table: `toml::map::Map::insert`.
///
/// Claims that the key then has this value, and that no other key is touched.
#[verifier::external_body]
fn insert(table: &mut toml::Table, key: String, value: toml::Value)
    ensures
        contents(*final(table)) == contents(*old(table)).insert(key@, held(value)),
{
    table.insert(key, value);
}

/// The table that a value is, or the value itself if it is none: the variants of
/// `toml::Value` told apart.
#[verifier::external_body]
fn into_table(value: toml::Value) -> (table: Result<toml::Table, toml::Value>)
    ensures
        match table {
            Ok(table) => held(value) == Held::Table(contents(table)),
            Err(leaf) => held(value) is Leaf && held(leaf) == held(value),
        },
{
    match value {
        toml::Value::Table(table) => Ok(table),
        leaf => Err(leaf),
    }
}

/// A table as a value: the variant `toml::Value::Table`.
#[verifier::external_body]
fn from_table(table: toml::Table) -> (value: toml::Value)
    ensures
        held(value) == Held::Table(contents(table)),
{
    toml::Value::Table(table)
}

/// What a key holds, if it is there.
pub open spec fn lookup(table: Map<Seq<char>, Held>, key: Seq<char>) -> Option<Held> {
    if table.dom().contains(key) {
        Some(table[key])
    } else {
        None
    }
}

/// What `over` laid over `base` comes to: two tables are laid over each other key by key,
/// and anything else that `over` is stands in place of what `base` is. A key that only one
/// of two tables has keeps what it holds there.
pub open spec fn overlaid(base: Held, over: Held) -> Held
    decreases over,
{
    match (base, over) {
        (Held::Table(below), Held::Table(above)) => Held::Table(
            Map::new(
                |key: Seq<char>| below.dom().contains(key) || above.dom().contains(key),
                |key: Seq<char>|
                    if above.dom().contains(key) {
                        if below.dom().contains(key) {
                            overlaid(below[key], above[key])
                        } else {
                            above[key]
                        }
                    } else {
                        below[key]
                    },
            ),
        ),
        _ => over,
    }
}

/// What `over` laid over `base` holds.
pub open spec fn merged(
    base: Map<Seq<char>, Held>,
    over: Map<Seq<char>, Held>,
) -> Map<Seq<char>, Held> {
    overlaid(Held::Table(base), Held::Table(over))->Table_0
}

/// What a key that may be absent holds once one that may be absent is laid over it.
spec fn laid(base: Option<Held>, over: Option<Held>) -> Option<Held> {
    match (base, over) {
        (Some(base), Some(over)) => Some(overlaid(base, over)),
        (_, Some(over)) => Some(over),
        (_, None) => base,
    }
}

/// Laying tables over each other is laying their keys over each other.
proof fn lemma_key_by_key(
    base: Map<Seq<char>, Held>,
    over: Map<Seq<char>, Held>,
    key: Seq<char>,
)
    ensures
        lookup(merged(base, over), key) == laid(lookup(base, key), lookup(over, key)),
{
}

/// Tables that agree key by key are the same.
proof fn lemma_same_table(a: Map<Seq<char>, Held>, b: Map<Seq<char>, Held>)
    requires
        forall|key: Seq<char>| #[trigger] lookup(a, key) == lookup(b, key),
    ensures
        a == b,
{
    assert forall|key: Seq<char>| a.dom().contains(key) == b.dom().contains(key) by {
        assert(lookup(a, key) == lookup(b, key));
    }
    assert forall|key: Seq<char>| a.dom().contains(key) implies a[key] == b[key] by {
        assert(lookup(a, key) == lookup(b, key));
    }
    assert(a =~= b);
}

/// Lay `over` over `base`, recursing into tables so that a partial section replaces only
/// the keys it names.
pub fn merge(base: &mut toml::Table, over: toml::Table)
    ensures
        contents(*final(base)) == merged(contents(*old(base)), contents(over)),
    decreases Held::Table(contents(over)), 0nat,
{
    let ghost before = contents(*base);
    let ghost above = contents(over);
    let mut left: Vec<(String, toml::Value)> = entries(over);
    let ghost all = left@;

    #[verifier::loop_isolation(false)]
    while left.len() > 0
        invariant
            left@.len() <= all.len(),
            left@ == all.take(left@.len() as int),
            forall|i: int|
                0 <= i < left@.len() ==> lookup(contents(*base), (#[trigger] all[i]).0@) == lookup(
                    before,
                    all[i].0@,
                ),
            forall|i: int|
                left@.len() <= i < all.len() ==> lookup(contents(*base), (#[trigger] all[i]).0@)
                    == laid(lookup(before, all[i].0@), lookup(above, all[i].0@)),
            forall|key: Seq<char>|
                !above.dom().contains(key) ==> #[trigger] lookup(contents(*base), key) == lookup(
                    before,
                    key,
                ),
        decreases left@.len(),
    {
        let ghost n = left@.len() - 1;
        if let Some((key, value)) = left.pop() {
            proof {
                assert(left@ =~= all.take(n));
                assert((key, value) == all[n]);
            }
            let ghost name = key@;
            let ghost then = contents(*base);
            lay(base, key, value);
            proof {
                assert(lookup(then, name) == lookup(before, name));
                assert forall|i: int| 0 <= i < n implies lookup(
                    contents(*base),
                    (#[trigger] all[i]).0@,
                ) == lookup(before, all[i].0@) by {
                    assert(all[i].0@ != all[n].0@);
                }
                assert forall|i: int| n <= i < all.len() implies lookup(
                    contents(*base),
                    (#[trigger] all[i]).0@,
                ) == laid(lookup(before, all[i].0@), lookup(above, all[i].0@)) by {
                    if i > n {
                        assert(all[n].0@ != all[i].0@);
                    }
                }
            }
        }
    }
    proof {
        assert forall|key: Seq<char>| #[trigger]
            lookup(contents(*base), key) == lookup(merged(before, above), key) by {
            lemma_key_by_key(before, above, key);
            if above.dom().contains(key) {
                let i = choose|i: int| 0 <= i < all.len() && (#[trigger] all[i]).0@ == key;
                assert(all[i].0@ == key);
            }
        }
        lemma_same_table(contents(*base), merged(before, above));
    }
}

/// Lay one key over a table.
fn lay(base: &mut toml::Table, key: String, value: toml::Value)
    ensures
        forall|k: Seq<char>| #[trigger]
            lookup(contents(*final(base)), k) == if k == key@ {
                laid(lookup(contents(*old(base)), k), Some(held(value)))
            } else {
                lookup(contents(*old(base)), k)
            },
    decreases held(value), 1nat,
{
    let found: Option<toml::Value> = remove(base, key.as_str());
    let laid_over: toml::Value = match (found, into_table(value)) {
        (Some(found), Ok(above)) => match into_table(found) {
            Ok(mut below) => {
                merge(&mut below, above);
                from_table(below)
            },
            Err(_) => from_table(above),
        },
        (None, Ok(above)) => from_table(above),
        (_, Err(leaf)) => leaf,
    };

    insert(base, key, laid_over);
}

/// Why there is no configuration to be had.
#[derive(Debug)]
pub enum LoadError {
    /// There is no committed configuration, which carries the defaults.
    Missing,
    /// The committed configuration is no TOML: the parser's complaint.
    Committed(String),
    /// The local configuration is no TOML: the parser's complaint.
    Local(String),
}

/// A [`LoadError`] with its text as a sequence.
pub enum LoadFault {
    /// There is no committed configuration.
    Missing,
    /// The committed configuration is no TOML.
    Committed(Seq<char>),
    /// The local configuration is no TOML.
    Local(Seq<char>),
}

impl View for LoadError {
    type V = LoadFault;

    open spec fn view(&self) -> LoadFault {
        match self {
            LoadError::Missing => LoadFault::Missing,
            LoadError::Committed(complaint) => LoadFault::Committed(complaint@),
            LoadError::Local(complaint) => LoadFault::Local(complaint@),
        }
    }
}

/// What two parses come to together: the committed configuration with the local one, if
/// there is one, laid over it, or the first thing wrong.
pub open spec fn loaded(
    committed: Option<Result<Map<Seq<char>, Held>, Seq<char>>>,
    local: Option<Result<Map<Seq<char>, Held>, Seq<char>>>,
) -> Result<Map<Seq<char>, Held>, LoadFault> {
    match (committed, local) {
        (None, _) => Err(LoadFault::Missing),
        (Some(Err(complaint)), _) => Err(LoadFault::Committed(complaint)),
        (Some(Ok(base)), None) => Ok(base),
        (Some(Ok(_)), Some(Err(complaint))) => Err(LoadFault::Local(complaint)),
        (Some(Ok(base)), Some(Ok(over))) => Ok(merged(base, over)),
    }
}

/// The parse of a text that may be absent.
pub open spec fn opt_parsed(
    text: Option<&str>,
) -> Option<Result<Map<Seq<char>, Held>, Seq<char>>> {
    match text {
        Some(text) => Some(parsed(text@)),
        None => None,
    }
}

/// The configuration that two files come to, given what each of them holds, or `None` for
/// one that is not there.
pub fn load(committed: Option<&str>, local: Option<&str>) -> (table: Result<toml::Table, LoadError>)
    ensures
        match table {
            Ok(table) => loaded(opt_parsed(committed), opt_parsed(local)) == Ok::<
                Map<Seq<char>, Held>,
                LoadFault,
            >(contents(table)),
            Err(error) => loaded(opt_parsed(committed), opt_parsed(local)) == Err::<
                Map<Seq<char>, Held>,
                LoadFault,
            >(error@),
        },
{
    let committed: &str = match committed {
        Some(committed) => committed,
        None => {
            return Err(LoadError::Missing);
        },
    };
    let mut base: toml::Table = match parse(committed) {
        Ok(base) => base,
        Err(complaint) => {
            return Err(LoadError::Committed(complaint));
        },
    };

    if let Some(local) = local {
        match parse(local) {
            Ok(over) => {
                merge(&mut base, over);
            },
            Err(complaint) => {
                return Err(LoadError::Local(complaint));
            },
        }
    }

    Ok(base)
}

/// What is found by following a path of keys.
pub open spec fn at(from: Held, path: Seq<Seq<char>>) -> Option<Held>
    decreases path.len(),
{
    if path.len() == 0 {
        Some(from)
    } else {
        match from {
            Held::Leaf(_) => None,
            Held::Table(table) => if table.dom().contains(path[0]) {
                at(table[path[0]], path.skip(1))
            } else {
                None
            },
        }
    }
}

/// What the local configuration says stands, whatever it is laid over.
pub proof fn law_override_wins(base: Held, over: Held, path: Seq<Seq<char>>)
    requires
        at(over, path) is Some,
        at(over, path)->Some_0 is Leaf,
    ensures
        at(overlaid(base, over), path) == at(over, path),
    decreases path.len(),
{
    if let (Held::Table(below), Held::Table(above)) = (base, over) {
        if path.len() > 0 && below.dom().contains(path[0]) {
            law_override_wins(below[path[0]], above[path[0]], path.skip(1));
        }
    }
}

/// A setting that the local configuration does not name, and whose section it does not
/// replace by something else, stays as it was.
pub proof fn law_unnamed_settings_are_kept(base: Held, over: Held, path: Seq<Seq<char>>)
    requires
        at(base, path) is Some,
        at(base, path)->Some_0 is Leaf,
        at(over, path) is None,
        forall|n: int|
            0 <= n < path.len() ==> !(#[trigger] at(over, path.take(n)) matches Some(
                Held::Leaf(_),
            )),
    ensures
        at(overlaid(base, over), path) == at(base, path),
    decreases path.len(),
{
    assert(path.take(0).len() == 0);
    assert(at(over, path.take(0)) == Some(over));
    if let (Held::Table(below), Held::Table(above)) = (base, over) {
        if above.dom().contains(path[0]) {
            let rest = path.skip(1);
            assert forall|n: int| 0 <= n < rest.len() implies !(#[trigger] at(
                above[path[0]],
                rest.take(n),
            ) matches Some(Held::Leaf(_))) by {
                let longer = path.take(n + 1);
                assert(longer[0] == path[0]);
                assert(longer.skip(1) =~= rest.take(n));
                assert(at(over, longer) == at(above[path[0]], rest.take(n)));
            }
            law_unnamed_settings_are_kept(below[path[0]], above[path[0]], rest);
        }
    }
}

/// Nothing is made up: a path that neither configuration has leads nowhere in the two together.
pub proof fn law_nothing_is_made_up(base: Held, over: Held, path: Seq<Seq<char>>)
    requires
        at(base, path) is None,
        at(over, path) is None,
    ensures
        at(overlaid(base, over), path) is None,
    decreases path.len(),
{
    if let (Held::Table(below), Held::Table(above)) = (base, over) {
        if path.len() > 0 && below.dom().contains(path[0]) && above.dom().contains(path[0]) {
            law_nothing_is_made_up(below[path[0]], above[path[0]], path.skip(1));
        }
    }
}

/// Whatever the local configuration has is there in the two together: a path that it has leads
/// somewhere, and to a table exactly where it leads to one there.
pub proof fn law_nothing_local_is_lost(base: Held, over: Held, path: Seq<Seq<char>>)
    requires
        at(over, path) is Some,
    ensures
        at(overlaid(base, over), path) matches Some(together) && (together is Table <==> at(
            over,
            path,
        )->Some_0 is Table),
    decreases path.len(),
{
    if let (Held::Table(below), Held::Table(above)) = (base, over) {
        if path.len() > 0 && below.dom().contains(path[0]) {
            law_nothing_local_is_lost(below[path[0]], above[path[0]], path.skip(1));
        }
    }
}

/// There is a configuration if and only if the committed one is there and is TOML, and the
/// local one is TOML if it is there; the committed one is complained about first. Without a
/// local one, the committed one stands as it is.
pub proof fn law_a_configuration_takes_the_committed_one(
    committed: Option<Result<Map<Seq<char>, Held>, Seq<char>>>,
    local: Option<Result<Map<Seq<char>, Held>, Seq<char>>>,
)
    ensures
        loaded(committed, local) is Ok <==> (committed matches Some(Ok(_))) && !(
        local matches Some(Err(_))),
        loaded(committed, local) == Err::<Map<Seq<char>, Held>, LoadFault>(LoadFault::Missing)
            <==> committed is None,
        committed matches Some(Err(complaint)) ==> loaded(committed, local) == Err::<
            Map<Seq<char>, Held>,
            LoadFault,
        >(LoadFault::Committed(complaint)),
        committed matches Some(Ok(base)) ==> {
            &&& local is None ==> loaded(committed, local) == Ok::<
                Map<Seq<char>, Held>,
                LoadFault,
            >(base)
            &&& local matches Some(Err(complaint)) ==> loaded(committed, local) == Err::<
                Map<Seq<char>, Held>,
                LoadFault,
            >(LoadFault::Local(complaint))
            &&& local matches Some(Ok(over)) ==> loaded(committed, local) matches Ok(table)
                && Held::Table(table) == overlaid(Held::Table(base), Held::Table(over))
        },
{
}

/// Laying an empty configuration over another leaves it as it was, and over an empty one a
/// configuration stands alone.
pub proof fn law_empty_configurations_change_nothing(table: Map<Seq<char>, Held>)
    ensures
        merged(table, Map::empty()) == table,
        merged(Map::empty(), table) == table,
{
    assert(merged(table, Map::empty()) =~= table);
    assert(merged(Map::empty(), table) =~= table);
}

/// Laying the same configuration over another again changes nothing more.
pub proof fn law_overlaying_again_changes_nothing(base: Held, over: Held)
    ensures
        overlaid(overlaid(base, over), over) == overlaid(base, over),
    decreases over,
{
    if let (Held::Table(below), Held::Table(above)) = (base, over) {
        let once = merged(below, above);
        assert forall|key: Seq<char>| #[trigger] once.dom().contains(key) implies merged(
            once,
            above,
        )[key] == once[key] by {
            if above.dom().contains(key) {
                if below.dom().contains(key) {
                    law_overlaying_again_changes_nothing(below[key], above[key]);
                } else {
                    lemma_overlaid_by_itself(above[key]);
                }
            }
        }
        assert(merged(once, above) =~= once);
    } else {
        lemma_overlaid_by_itself(over);
    }
}

/// A configuration laid over itself is itself.
proof fn lemma_overlaid_by_itself(over: Held)
    ensures
        overlaid(over, over) == over,
    decreases over,
{
    if let Held::Table(table) = over {
        assert forall|key: Seq<char>| #[trigger] table.dom().contains(key) implies merged(
            table,
            table,
        )[key] == table[key] by {
            lemma_overlaid_by_itself(table[key]);
        }
        assert(merged(table, table) =~= table);
    }
}

} // verus!
