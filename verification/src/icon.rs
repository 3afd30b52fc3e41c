//! Icon catalogue: per-voice icon image bytes, built once at start-up from
//! values extracted out of the voice database, then only read.

use vstd::prelude::*;

verus! {

/// One voice's icon image.
#[derive(Clone, Debug)]
pub struct IconEntry {
    pub name: String,
    pub data: Vec<u8>,
}

/// The catalogue of all installed voices' icons.
#[derive(Clone, Debug)]
pub struct IconSet {
    pub entries: Vec<IconEntry>,
}

/// The icon bytes recorded for a voice name: the last entry with that name
/// decides.
pub open spec fn spec_icon_lookup(entries: Seq<IconEntry>, name: Seq<char>) -> Option<Seq<u8>>
    decreases entries.len(),
{
    if entries.len() == 0 {
        None
    } else if entries.last().name@ == name {
        Some(entries.last().data@)
    } else {
        spec_icon_lookup(entries.drop_last(), name)
    }
}

/// Build the catalogue from the extracted per-voice icons.
pub fn init(entries: Vec<IconEntry>) -> (r: IconSet)
    ensures
        r.entries == entries,
{
    IconSet { entries }
}

/// All entries of the catalogue, in construction order.
pub fn get(set: &IconSet) -> (r: &Vec<IconEntry>)
    ensures
        r@ == set.entries@,
{
    &set.entries
}

/// The icon recorded for a voice name, if any.
pub fn lookup<'a>(set: &'a IconSet, name: &String) -> (r: Option<&'a Vec<u8>>)
    ensures
        match r {
            Some(d) => spec_icon_lookup(set.entries@, name@) == Some(d@),
            None => spec_icon_lookup(set.entries@, name@) is None,
        },
{
    let mut i: usize = set.entries.len();
    proof {
        assert(set.entries@.take(i as int) =~= set.entries@);
    }
    while i > 0
        invariant
            i <= set.entries@.len(),
            spec_icon_lookup(set.entries@, name@) == spec_icon_lookup(
                set.entries@.take(i as int),
                name@,
            ),
        decreases i,
    {
        i = i - 1;
        if set.entries[i].name == *name {
            proof {
                assert(set.entries@.take(i as int + 1).last() == set.entries@[i as int]);
                assert(spec_icon_lookup(set.entries@.take(i as int + 1), name@) == Some(
                    set.entries@[i as int].data@,
                ));
            }
            return Some(&set.entries[i].data);
        }
        proof {
            assert(set.entries@.take(i as int + 1).last() == set.entries@[i as int]);
            assert(set.entries@.take(i as int + 1).drop_last() =~= set.entries@.take(i as int));
        }
    }
    proof {
        assert(set.entries@.take(0).len() == 0);
    }
    None
}

} // verus!
