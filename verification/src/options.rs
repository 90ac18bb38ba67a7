//! Screen options as the server sets them: a map from option name to value,
//! kept as a list in which every name occurs once.
use vstd::prelude::*;

verus! {

/// An option as the contracts see it: the name's characters and the value.
pub type OptionEntry = (Seq<char>, u32);

/// No name occurs twice.
pub open spec fn names_distinct(opts: Seq<OptionEntry>) -> bool {
    forall|i: int, j: int| 0 <= i < j < opts.len() ==> #[trigger] opts[i].0 != #[trigger] opts[j].0
}

/// Whether some entry is named `name`.
pub open spec fn has_name(opts: Seq<OptionEntry>, name: Seq<char>) -> bool {
    exists|j: int| 0 <= j < opts.len() && #[trigger] opts[j].0 == name
}

/// `o` set in `opts`: an entry of the same name takes the new value in
/// place, a new name is added at the end.
pub open spec fn set_option(opts: Seq<OptionEntry>, o: OptionEntry) -> Seq<OptionEntry> {
    if has_name(opts, o.0) {
        let j = choose|j: int| 0 <= j < opts.len() && #[trigger] opts[j].0 == o.0;
        opts.update(j, o)
    } else {
        opts.push(o)
    }
}

/// The options `raw` set one after the other, starting from none.
pub open spec fn collect_options(raw: Seq<OptionEntry>) -> Seq<OptionEntry>
    decreases raw.len(),
{
    if raw.len() == 0 {
        Seq::empty()
    } else {
        set_option(collect_options(raw.drop_last()), raw.last())
    }
}

/// The map that inserting the entries of `raw` in order builds: each name
/// maps to the value of its last entry.
pub open spec fn options_map(raw: Seq<OptionEntry>) -> Map<Seq<char>, u32>
    decreases raw.len(),
{
    if raw.len() == 0 {
        Map::empty()
    } else {
        options_map(raw.drop_last()).insert(raw.last().0, raw.last().1)
    }
}

/// Replacing the entry of a name in a list without repeated names changes
/// the map as inserting does.
proof fn lemma_update_is_insert(opts: Seq<OptionEntry>, j: int, o: OptionEntry)
    requires
        names_distinct(opts),
        0 <= j < opts.len(),
        opts[j].0 == o.0,
    ensures
        options_map(opts.update(j, o)) =~= options_map(opts).insert(o.0, o.1),
    decreases opts.len(),
{
    let u = opts.update(j, o);
    let last = opts.len() - 1;
    if j == last {
        assert(u.drop_last() =~= opts.drop_last());
    } else {
        assert(u.drop_last() =~= opts.drop_last().update(j, o));
        assert(names_distinct(opts.drop_last()));
        lemma_update_is_insert(opts.drop_last(), j, o);
        assert(opts[j].0 != opts[last].0);
    }
}

/// Setting an option keeps names distinct and acts on the map as an insert.
/// An option whose name is there replaces that entry where it stands and
/// leaves the others; a new name goes at the end.
pub proof fn lemma_set_option(opts: Seq<OptionEntry>, o: OptionEntry)
    requires
        names_distinct(opts),
    ensures
        names_distinct(set_option(opts, o)),
        options_map(set_option(opts, o)) =~= options_map(opts).insert(o.0, o.1),
        has_name(opts, o.0) ==> set_option(opts, o).len() == opts.len() && forall|i: int|
            0 <= i < opts.len() ==> #[trigger] set_option(opts, o)[i] == if opts[i].0 == o.0 { o } else { opts[i] },
        !has_name(opts, o.0) ==> set_option(opts, o) == opts.push(o),
{
    if has_name(opts, o.0) {
        let j = choose|j: int| 0 <= j < opts.len() && #[trigger] opts[j].0 == o.0;
        lemma_update_is_insert(opts, j, o);
        let u = opts.update(j, o);
        assert forall|i: int| 0 <= i < opts.len() implies #[trigger] u[i] == if opts[i].0 == o.0 { o } else { opts[i] } by {
            if i != j && opts[i].0 == o.0 {
                if i < j {
                    assert(opts[i].0 != opts[j].0);
                } else {
                    assert(opts[j].0 != opts[i].0);
                }
            }
        }
        assert forall|a: int, b: int| 0 <= a < b < u.len() implies #[trigger] u[a].0 != #[trigger] u[b].0 by {
            assert(opts[a].0 != opts[b].0);
        }
    } else {
        let p = opts.push(o);
        assert(p.drop_last() =~= opts);
        assert forall|a: int, b: int| 0 <= a < b < p.len() implies #[trigger] p[a].0 != #[trigger] p[b].0 by {
            if b == opts.len() {
                assert(opts[a].0 == p[a].0);
                if opts[a].0 == o.0 {
                    assert(has_name(opts, o.0));
                }
            } else {
                assert(opts[a].0 != opts[b].0);
            }
        }
    }
}

/// Options collected from the items a server sends name each option once,
/// and read as a map they are the map that inserting the items in order
/// builds: a later value for a name overrides an earlier one.
pub proof fn lemma_collect_options(raw: Seq<OptionEntry>)
    ensures
        names_distinct(collect_options(raw)),
        options_map(collect_options(raw)) == options_map(raw),
    decreases raw.len(),
{
    if raw.len() > 0 {
        lemma_collect_options(raw.drop_last());
        lemma_set_option(collect_options(raw.drop_last()), raw.last());
    }
}

} // verus!
