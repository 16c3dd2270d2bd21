//! The dataset's records and the choice of page for a requested path.

use vstd::prelude::*;
use crate::text::push_char;

verus! {

/// A species: its title, common name and description.
#[derive(Clone, Debug)]
pub struct SpecInfo {
    pub title: String,
    pub name: String,
    pub blurb: String,
}

/// A genus and its species.
#[derive(Clone, Debug)]
pub struct GenInfo {
    pub title: String,
    pub species: Vec<SpecInfo>,
}

/// A category: its title, the label that names its page, and its genera.
#[derive(Clone, Debug)]
pub struct CatInfo {
    pub title: String,
    pub label: String,
    pub genera: Vec<GenInfo>,
}

/// The page chosen for a path of the mycology host.
#[derive(Clone, Debug)]
pub enum Page {
    /// The menu of all categories.
    Menu,
    /// The page of one category.
    Category(CatInfo),
}

/// A requested path without its slashes: the label of the category asked for.
pub open spec fn drop_slashes(s: Seq<char>) -> Seq<char>
    decreases s.len(),
{
    if s.len() == 0 {
        s
    } else if s.last() == '/' {
        drop_slashes(s.drop_last())
    } else {
        drop_slashes(s.drop_last()).push(s.last())
    }
}

/// Some category has the label `q`.
pub open spec fn has_label(cats: Seq<CatInfo>, q: Seq<char>) -> bool {
    exists|i: int| 0 <= i < cats.len() && (#[trigger] cats[i]).label@ == q
}

/// `i` is the first category with the label `q`.
pub open spec fn first_with_label(cats: Seq<CatInfo>, q: Seq<char>, i: int) -> bool {
    &&& 0 <= i < cats.len()
    &&& cats[i].label@ == q
    &&& forall|k: int| 0 <= k < i ==> (#[trigger] cats[k]).label@ != q
}

fn without_slashes(s: &str) -> (r: String)
    ensures
        r@ == drop_slashes(s@),
{
    let n = s.unicode_len();
    let mut out = String::new();
    let mut i: usize = 0;
    while i < n
        invariant
            n == s@.len(),
            i <= n,
            out@ == drop_slashes(s@.take(i as int)),
        decreases n - i,
    {
        let c = s.get_char(i);
        assert(s@.take(i as int + 1).drop_last() =~= s@.take(i as int));
        if c != '/' {
            push_char(&mut out, c);
        }
        i = i + 1;
    }
    assert(s@.take(n as int) =~= s@);
    out
}

/// Position of the first category with the given label.
fn find_label(categories: &Vec<CatInfo>, q: &String) -> (r: Option<usize>)
    ensures
        match r {
            Some(i) => first_with_label(categories@, q@, i as int),
            None => !has_label(categories@, q@),
        },
{
    let mut i: usize = 0;
    while i < categories.len()
        invariant
            i <= categories.len(),
            forall|k: int| 0 <= k < i ==> (#[trigger] categories@[k]).label@ != q@,
        decreases categories.len() - i,
    {
        if categories[i].label == *q {
            return Some(i);
        }
        i = i + 1;
    }
    None
}

/// Some category has the label `requested_category`.
pub fn contains(categories: &Vec<CatInfo>, requested_category: &String) -> (r: bool)
    ensures
        r == has_label(categories@, requested_category@),
{
    find_label(categories, requested_category).is_some()
}

/// Chooses the page for a path of the mycology host, given the categories of
/// the dataset: the menu for a path of slashes only (unless a category has
/// the empty label), the category whose label is the path without its
/// slashes, or nothing where no category has that label.
pub fn get(path: &str, categories: Vec<CatInfo>) -> (r: Option<Page>)
    ensures
        ({
            let q = drop_slashes(path@);
            &&& (q.len() == 0 && !has_label(categories@, q)) <==> (r matches Some(Page::Menu))
            &&& (q.len() > 0 && has_label(categories@, q)) <==> (r matches Some(Page::Category(_)))
            &&& (r matches Some(Page::Category(c)) ==> exists|i: int|
                first_with_label(categories@, q, i) && c == categories@[i])
        }),
{
    let requested_category = without_slashes(path);
    let empty = requested_category.as_str().unicode_len() == 0;
    match find_label(&categories, &requested_category) {
        Some(i) => {
            if empty {
                None
            } else {
                let mut cats = categories;
                let c = cats.remove(i);
                Some(Page::Category(c))
            }
        },
        None => {
            if empty {
                Some(Page::Menu)
            } else {
                None
            }
        },
    }
}

} // verus!
