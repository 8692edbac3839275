//! Design-space locations: one coordinate for each axis that is named.

use vstd::prelude::*;
use fontdrasil::coords::DesignCoord;
use crate::error::{Error, Fault};
use crate::tag::{invalid_tag, parse_tag, well_formed_tag, AxisTag};

verus! {

/// A validated location: every entry names its axis by a well-formed tag.
/// The entries stand in the order in which they were given.
#[derive(Debug)]
pub struct Location {
    pub(crate) entries: Vec<(AxisTag, DesignCoord)>,
}

impl View for Location {
    type V = Seq<(Seq<char>, DesignCoord)>;

    /// The entries, each tag as its four characters.
    closed spec fn view(&self) -> Seq<(Seq<char>, DesignCoord)> {
        self.entries@.map_values(|entry: (AxisTag, DesignCoord)| (entry.0@, entry.1))
    }
}

impl Location {
    /// No location holds a key that is no tag.
    #[verifier::type_invariant]
    spec fn well_formed(self) -> bool {
        all_tags(self@)
    }

    /// The number of entries.
    pub fn len(&self) -> (count: usize)
        ensures
            count == self@.len(),
    {
        self.entries.len()
    }

    /// The entry at `index`, counted from zero.
    pub fn get(&self, index: usize) -> (entry: Option<(AxisTag, DesignCoord)>)
        ensures
            all_tags(self@),
            match entry {
                Some(found) => index < self@.len() && (found.0@, found.1) == self@[index as int],
                None => index >= self@.len(),
            },
    {
        proof {
            use_type_invariant(self);
        }
        if index < self.entries.len() {
            Some(self.entries[index])
        } else {
            None
        }
    }

    /// The location as a mapping again: each tag as the key it was read from,
    /// with its coordinate.
    pub fn to_mapping(&self) -> (entries: Vec<(String, DesignCoord)>)
        ensures
            keyed(entries@) == self@,
    {
        let mut entries: Vec<(String, DesignCoord)> = Vec::new();
        let mut i: usize = 0;
        while i < self.entries.len()
            invariant
                i <= self.entries.len(),
                entries@.len() == i,
                forall|j: int|
                    0 <= j < i ==> (#[trigger] entries@[j]).0@ == self.entries@[j].0@ && entries@[j].1
                        == self.entries@[j].1,
            decreases self.entries.len() - i,
        {
            let key = self.entries[i].0.to_text();
            entries.push((key, self.entries[i].1));
            i = i + 1;
        }
        assert(keyed(entries@) =~= self@);
        entries
    }
}

/// A location mapping as it is given: keys that are yet to be read as tags.
pub open spec fn keyed(entries: Seq<(String, DesignCoord)>) -> Seq<(Seq<char>, DesignCoord)> {
    entries.map_values(|entry: (String, DesignCoord)| (entry.0@, entry.1))
}

/// True where every key is a well-formed tag.
pub open spec fn all_tags(pairs: Seq<(Seq<char>, DesignCoord)>) -> bool {
    forall|i: int| 0 <= i < pairs.len() ==> well_formed_tag(#[trigger] pairs[i].0)
}

/// True where the key at `index` is no tag and every key before it is one.
pub open spec fn is_first_bad_key(pairs: Seq<(Seq<char>, DesignCoord)>, index: int) -> bool {
    &&& 0 <= index < pairs.len()
    &&& !well_formed_tag(pairs[index].0)
    &&& forall|j: int| 0 <= j < index ==> well_formed_tag(#[trigger] pairs[j].0)
}

/// The place of the first key that is no tag.
pub open spec fn first_bad_key(pairs: Seq<(Seq<char>, DesignCoord)>) -> int {
    choose|index: int| is_first_bad_key(pairs, index)
}

/// What reading a mapping gives: the same pairs where every key is a tag,
/// else the failure for the first key that is none.
pub open spec fn parsed(pairs: Seq<(Seq<char>, DesignCoord)>) -> Result<
    Seq<(Seq<char>, DesignCoord)>,
    Fault,
> {
    if all_tags(pairs) {
        Ok(pairs)
    } else {
        Err(invalid_tag(pairs[first_bad_key(pairs)].0))
    }
}

/// The pairs as a mapping from tag to coordinate. A tag that is given twice
/// keeps its last coordinate.
pub open spec fn as_mapping(pairs: Seq<(Seq<char>, DesignCoord)>) -> Map<Seq<char>, DesignCoord>
    decreases pairs.len(),
{
    if pairs.len() == 0 {
        Map::empty()
    } else {
        as_mapping(pairs.drop_last()).insert(pairs.last().0, pairs.last().1)
    }
}

/// Reading a mapping whose keys are all well-formed tags succeeds, and the
/// location read back as a mapping holds the pairs that were given: the same
/// tags with the same coordinates.
pub proof fn lemma_location_round_trip(pairs: Seq<(Seq<char>, DesignCoord)>)
    requires
        all_tags(pairs),
    ensures
        parsed(pairs) == Ok::<Seq<(Seq<char>, DesignCoord)>, Fault>(pairs),
        as_mapping(parsed(pairs)->Ok_0) == as_mapping(pairs),
{
}

/// At most one place holds the first key that is no tag.
proof fn lemma_first_bad_key_is_unique(pairs: Seq<(Seq<char>, DesignCoord)>, index: int)
    requires
        is_first_bad_key(pairs, index),
    ensures
        !all_tags(pairs),
        first_bad_key(pairs) == index,
{
    let chosen = first_bad_key(pairs);
    assert(is_first_bad_key(pairs, chosen));
    if chosen < index {
        assert(well_formed_tag(pairs[chosen].0));
    }
    if index < chosen {
        assert(well_formed_tag(pairs[index].0));
    }
}

/// Reads a location mapping. The whole mapping is refused on the first key
/// that is no axis tag; no entry is dropped.
pub fn parse_location(entries: &Vec<(String, DesignCoord)>) -> (result: Result<Location, Error>)
    ensures
        match parsed(keyed(entries@)) {
            Ok(pairs) => result matches Ok(location) && location@ == pairs,
            Err(fault) => result matches Err(error) && error@ == fault,
        },
{
    let ghost pairs = keyed(entries@);
    let mut read: Vec<(AxisTag, DesignCoord)> = Vec::new();
    let mut i: usize = 0;
    while i < entries.len()
        invariant
            i <= entries.len(),
            pairs == keyed(entries@),
            read@.len() == i,
            forall|j: int| 0 <= j < i ==> well_formed_tag(#[trigger] pairs[j].0),
            forall|j: int| 0 <= j < i ==> (#[trigger] read@[j]).0@ == pairs[j].0 && read@[j].1 == pairs[j].1,
        decreases entries.len() - i,
    {
        let coordinate = entries[i].1;
        match parse_tag(entries[i].0.as_str()) {
            Ok(tag) => {
                read.push((tag, coordinate));
            },
            Err(error) => {
                proof {
                    assert(pairs[i as int].0 == entries@[i as int].0@);
                    lemma_first_bad_key_is_unique(pairs, i as int);
                }
                return Err(error);
            },
        }
        i = i + 1;
    }
    assert(all_tags(pairs));
    assert(read@.map_values(|entry: (AxisTag, DesignCoord)| (entry.0@, entry.1)) =~= pairs);
    Ok(Location { entries: read })
}

} // verus!
