//! Sections of the forum.

use crate::types::Id;
use vstd::prelude::*;

verus! {

/// A section with its counters.
#[derive(Debug)]
pub struct Section {
    pub id: Id,
    pub name: String,
    pub category_id: Id,
    pub topic_count: i64,
    pub post_count: i64,
}

impl Clone for Section {
    fn clone(&self) -> (copy: Self)
        ensures
            copy == *self,
    {
        Section {
            id: self.id,
            name: self.name.clone(),
            category_id: self.category_id,
            topic_count: self.topic_count,
            post_count: self.post_count,
        }
    }
}

/// The sections of a category, in the order in which they come; all
/// sections where no category is named.
pub open spec fn sections_of(sections: Seq<Section>, category_id: Option<Id>) -> Seq<Section> {
    match category_id {
        Some(id) => sections.filter(|section: Section| section.category_id == id),
        None => sections,
    }
}

/// Keeps the sections of a category, or all where no category is named.
pub fn get_sections(sections: Vec<Section>, category_id: Option<Id>) -> (res: Vec<Section>)
    ensures
        res@ == sections_of(sections@, category_id),
{
    let id = match category_id {
        Some(id) => id,
        None => {
            return sections;
        },
    };
    let ghost keep = |section: Section| section.category_id == id;
    let mut res: Vec<Section> = Vec::new();
    let mut i: usize = 0;
    proof {
        reveal(Seq::filter);
    }
    while i < sections.len()
        invariant
            i <= sections.len(),
            keep == (|section: Section| section.category_id == id),
            res@ == sections@.take(i as int).filter(keep),
        decreases sections.len() - i,
    {
        proof {
            reveal(Seq::filter);
            assert(sections@.take(i + 1).drop_last() =~= sections@.take(i as int));
            assert(sections@.take(i + 1).last() == sections@[i as int]);
        }
        if sections[i].category_id == id {
            res.push(sections[i].clone());
        }
        i += 1;
    }
    proof {
        assert(sections@.take(i as int) =~= sections@);
    }
    res
}

} // verus!
