//! Entries: their titles, and the categories that they are filed under.

use crate::config::Config;
use crate::controller::{format_mandela_title, mandela_link};
use crate::telegram_bot::{send_message, Outgoing};
use crate::types::Id;
use vstd::prelude::*;
use vstd::string::*;
use vstd::seq_lib::lemma_multiset_commutative;

verus! {

/// What the title of an entry is made of.
#[derive(Debug)]
pub struct MandelaTitle {
    pub id: Id,
    pub title_mode: i32,
    pub title: String,
    pub what: String,
    pub before: String,
    pub after: String,
}

/// Which entries a listing shows.
#[derive(Clone, Copy, Debug, PartialEq, Eq, Structural)]
pub enum Show {
    /// All entries.
    All,
    /// The entries that the caller has not marked as read.
    New,
    /// The entries of the caller.
    Mine,
    /// The entries on which the caller has not voted.
    Poll,
    /// The entries filed under a category.
    Category(i16),
}

/// In which order a listing comes.
#[derive(Clone, Copy, Debug, PartialEq, Eq, Structural)]
pub enum SortBy {
    /// Newest entry first.
    Mandela,
    /// The entry with the newest comment first, entries without comments last.
    Comment,
    /// As the store returns them.
    Unsorted,
}

/// The counters that go with a listing.
#[derive(Clone, Copy, Debug, PartialEq, Eq, Structural)]
pub struct Counts {
    pub total_count: i64,
    pub new_count: i64,
    pub mine_count: i64,
    pub poll_count: i64,
    pub category_count: i64,
}

/// What the caller of a listing is counted with: how many entries the caller
/// has marked, voted on and written.
#[derive(Clone, Copy, Debug, PartialEq, Eq, Structural)]
pub struct Activity {
    pub mark_count: i64,
    pub vote_count: i64,
    pub mine_count: i64,
}

/// Reads the filter of a listing: 1 to 4 select, in this order, the new
/// entries, the caller's own, those open for a vote and those of a category;
/// no filter and every other number show all. The filter by category has no
/// reading without a category.
pub fn show(filter: Option<i8>, category: Option<i16>) -> (res: Option<Show>)
    ensures
        res == match filter {
            Some(1) => Some(Show::New),
            Some(2) => Some(Show::Mine),
            Some(3) => Some(Show::Poll),
            Some(4) => match category {
                Some(number) => Some(Show::Category(number)),
                None => None,
            },
            _ => Some(Show::All),
        },
{
    match filter {
        Some(1) => Some(Show::New),
        Some(2) => Some(Show::Mine),
        Some(3) => Some(Show::Poll),
        Some(4) => match category {
            Some(number) => Some(Show::Category(number)),
            None => None,
        },
        _ => Some(Show::All),
    }
}

/// Reads the order of a listing: 0 by entry, 1 by comment, any other number
/// leaves the order to the store.
pub fn sort_by(sort: i8) -> (res: SortBy)
    ensures
        res == if sort == 0 {
            SortBy::Mandela
        } else if sort == 1 {
            SortBy::Comment
        } else {
            SortBy::Unsorted
        },
{
    if sort == 0 {
        SortBy::Mandela
    } else if sort == 1 {
        SortBy::Comment
    } else {
        SortBy::Unsorted
    }
}

/// The counters of a listing. The entries that are new to a caller are those
/// not yet marked, the entries open for a vote those not yet voted on. An
/// anonymous caller, for whom there is no activity, is counted with zeros.
/// The counter of the category is zero but for a listing by category.
pub fn counts(total_count: i64, activity: Option<Activity>, category_count: Option<i64>) -> (res:
    Counts)
    requires
        0 <= total_count,
        activity matches Some(a) ==> 0 <= a.mark_count && 0 <= a.vote_count,
    ensures
        res.total_count == total_count,
        res.category_count == match category_count {
            Some(n) => n,
            None => 0,
        },
        match activity {
            Some(a) => res.new_count == total_count - a.mark_count && res.poll_count == total_count
                - a.vote_count && res.mine_count == a.mine_count,
            None => res.new_count == 0 && res.poll_count == 0 && res.mine_count == 0,
        },
{
    let category_count = match category_count {
        Some(n) => n,
        None => 0,
    };
    match activity {
        Some(a) => Counts {
            total_count,
            new_count: total_count - a.mark_count,
            mine_count: a.mine_count,
            poll_count: total_count - a.vote_count,
            category_count,
        },
        None => Counts { total_count, new_count: 0, mine_count: 0, poll_count: 0, category_count },
    }
}

/// The text that announces a new entry: the link to it and, on a line of its
/// own, the name of its author.
pub open spec fn creation_text(domen: Seq<char>, title: MandelaTitle, user_name: Seq<char>) -> Seq<
    char,
> {
    mandela_link(domen, title) + "\n"@ + user_name
}

/// The announcement of a new entry, which goes to the channel.
pub fn creation_notice(config: &Config, title: MandelaTitle, user_name: &str) -> (out: Outgoing)
    ensures
        out.carries(
            &config.telegram_bot,
            config.telegram_bot.channel@,
            creation_text(config.frontend.domen@, title, user_name@),
        ),
{
    let mut message = format_mandela_title(&config.frontend, title);
    message.append("\n");
    message.append(user_name);
    send_message(&config.telegram_bot, message)
}

/// A stored category of an entry: the row and the number of the category.
#[derive(Clone, Copy, Debug, PartialEq, Eq, Structural)]
pub struct CategoryNumber {
    pub id: Id,
    pub number: i16,
}

/// What brings the stored categories of an entry to the wanted ones: the rows
/// to delete and the numbers to insert.
#[derive(Debug)]
pub struct CategoryChanges {
    pub delete: Vec<Id>,
    pub insert: Vec<i16>,
}

/// The rows whose number is not wanted, in the order in which they are stored.
pub open spec fn obsolete(current: Seq<CategoryNumber>, wanted: Seq<i16>) -> Seq<Id>
    decreases current.len(),
{
    if current.len() == 0 {
        Seq::empty()
    } else {
        let rest = obsolete(current.drop_last(), wanted);
        if wanted.contains(current.last().number) {
            rest
        } else {
            rest.push(current.last().id)
        }
    }
}

/// The wanted numbers that no row stores yet: the wanted numbers, less the
/// first occurrence of its number for each stored row that is wanted. There is
/// no answer where the rows store a wanted number more often than it is
/// wanted.
pub open spec fn missing(current: Seq<CategoryNumber>, wanted: Seq<i16>) -> Option<Seq<i16>>
    decreases current.len(),
{
    if current.len() == 0 {
        Some(wanted)
    } else {
        match missing(current.drop_last(), wanted) {
            None => None,
            Some(rest) => {
                let number = current.last().number;
                if !wanted.contains(number) {
                    Some(rest)
                } else if rest.contains(number) {
                    Some(rest.remove_value(number))
                } else {
                    None
                }
            },
        }
    }
}

/// The numbers of the rows that stay, in the order in which they are stored.
pub open spec fn kept_numbers(current: Seq<CategoryNumber>, wanted: Seq<i16>) -> Seq<i16>
    decreases current.len(),
{
    if current.len() == 0 {
        Seq::empty()
    } else {
        let rest = kept_numbers(current.drop_last(), wanted);
        if wanted.contains(current.last().number) {
            rest.push(current.last().number)
        } else {
            rest
        }
    }
}

/// The place of the first occurrence of a number in a list.
fn position(numbers: &Vec<i16>, number: i16) -> (place: Option<usize>)
    ensures
        match place {
            Some(i) => numbers@.index_of_first(number) == Some(i as int) && i < numbers.len()
                && numbers@.contains(number),
            None => !numbers@.contains(number),
        },
{
    let mut i: usize = 0;
    while i < numbers.len()
        invariant
            i <= numbers.len(),
            forall|k: int| 0 <= k < i ==> numbers[k] != number,
        decreases numbers.len() - i,
    {
        if numbers[i] == number {
            proof {
                numbers@.index_of_first_ensures(number);
                assert(numbers@.contains(number));
            }
            return Some(i);
        }
        i += 1;
    }
    None
}

/// Works out how to bring the stored categories of an entry to the wanted
/// ones.
///
/// A row whose number is not wanted is deleted. Every other row stays and
/// accounts for one occurrence of its number among the wanted ones; what is
/// then left of the wanted numbers is inserted. Where the rows store a wanted
/// number more often than it is wanted, there is no answer.
pub fn update_categories(current: &Vec<CategoryNumber>, category_numbers: &Vec<i16>) -> (changes:
    Option<CategoryChanges>)
    ensures
        match missing(current@, category_numbers@) {
            Some(insert) => changes matches Some(c) && c.insert@ == insert && c.delete@
                == obsolete(current@, category_numbers@),
            None => changes is None,
        },
{
    let mut delete: Vec<Id> = Vec::new();
    let mut insert: Vec<i16> = category_numbers.clone();
    let mut i: usize = 0;
    while i < current.len()
        invariant
            i <= current.len(),
            missing(current@.take(i as int), category_numbers@) == Some(insert@),
            delete@ == obsolete(current@.take(i as int), category_numbers@),
        decreases current.len() - i,
    {
        let row = current[i];
        proof {
            assert(current@.take(i + 1).drop_last() =~= current@.take(i as int));
            assert(current@.take(i + 1).last() == row);
        }
        if position(category_numbers, row.number).is_none() {
            delete.push(row.id);
        } else {
            match position(&insert, row.number) {
                Some(place) => {
                    insert.remove(place);
                },
                None => {
                    proof {
                        lemma_missing_stays_none(current@, category_numbers@, i + 1);
                    }
                    return None;
                },
            }
        }
        i += 1;
    }
    proof {
        assert(current@.take(i as int) =~= current@);
    }
    Some(CategoryChanges { delete, insert })
}

/// Once the rows up to some point have no answer, neither has any longer list
/// of rows.
proof fn lemma_missing_stays_none(current: Seq<CategoryNumber>, wanted: Seq<i16>, upto: int)
    requires
        0 <= upto <= current.len(),
        missing(current.take(upto), wanted) is None,
    ensures
        missing(current, wanted) is None,
    decreases current.len() - upto,
{
    if upto == current.len() {
        assert(current.take(upto) =~= current);
    } else {
        assert(current.take(upto + 1).drop_last() =~= current.take(upto));
        lemma_missing_stays_none(current, wanted, upto + 1);
    }
}

/// Once the changes are made, the entry is filed under the wanted numbers,
/// each as often as it is wanted: the numbers that stay and the numbers
/// inserted make up the wanted ones.
pub proof fn lemma_changes_reach_wanted(current: Seq<CategoryNumber>, wanted: Seq<i16>)
    requires
        missing(current, wanted) is Some,
    ensures
        (kept_numbers(current, wanted) + missing(current, wanted)->0).to_multiset()
            == wanted.to_multiset(),
    decreases current.len(),
{
    let kept = kept_numbers(current, wanted);
    let insert = missing(current, wanted)->0;
    lemma_multiset_commutative(kept, insert);
    if current.len() == 0 {
        assert(kept + insert =~= wanted);
    } else {
        let earlier = current.drop_last();
        let number = current.last().number;
        lemma_changes_reach_wanted(earlier, wanted);
        let kept_earlier = kept_numbers(earlier, wanted);
        let rest = missing(earlier, wanted)->0;
        lemma_multiset_commutative(kept_earlier, rest);
        if wanted.contains(number) {
            kept_earlier.to_multiset_ensures();
            rest.to_multiset_ensures();
            rest.index_of_first_ensures(number);
            let place = rest.index_of_first(number)->0;
            assert(insert == rest.remove(place));
            assert(kept.to_multiset() =~= kept_earlier.to_multiset().insert(number));
            assert(insert.to_multiset() =~= rest.to_multiset().remove(number));
            assert(kept.to_multiset().add(insert.to_multiset()) =~= kept_earlier.to_multiset().add(
                rest.to_multiset(),
            ));
        }
    }
}

} // verus!
