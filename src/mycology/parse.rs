//! Parser for the mycology dataset: an indented text file of categories,
//! genera and species, each introduced by a line that ends in a colon.

use vstd::prelude::*;
use crate::text::{is_space, push_char, push_str, space};
use crate::mycology::generate::{CatInfo, GenInfo, SpecInfo};

verus! {

/// The three levels of the dataset's outline.
#[derive(Clone, Copy, Debug, PartialEq, Eq, Structural)]
pub enum Layer {
    Category,
    Genus,
    Species,
}

/// How much of the dataset to read.
#[derive(Clone, Copy, Debug, PartialEq, Eq, Structural)]
pub enum Parse {
    All,
    JustCats,
}

/// `s` starts with at least `k` spaces.
pub open spec fn indented(s: Seq<char>, k: nat) -> bool {
    s.len() >= k && forall|i: int| 0 <= i < k ==> s[i] == ' '
}

/// `s` ends with a colon.
pub open spec fn ends_colon(s: Seq<char>) -> bool {
    s.len() > 0 && s.last() == ':'
}

/// The line `s` opens an entry of the level `layer`.
pub open spec fn opens(layer: Layer, s: Seq<char>) -> bool {
    match layer {
        Layer::Category => !indented(s, 2) && ends_colon(s),
        Layer::Genus => indented(s, 2) && !indented(s, 3) && ends_colon(s),
        Layer::Species => indented(s, 4) && ends_colon(s),
    }
}

/// Number of leading spaces of `s`, counted up to `cap`.
fn leading_spaces(s: &str, cap: usize) -> (r: usize)
    ensures
        r <= cap,
        forall|k: nat| k <= cap ==> (indented(s@, k) <==> k <= r),
{
    let n = s.unicode_len();
    let mut i: usize = 0;
    while i < cap && i < n && s.get_char(i) == ' '
        invariant
            n == s@.len(),
            i <= cap,
            i <= n,
            forall|j: int| 0 <= j < i ==> s@[j] == ' ',
        decreases cap - i,
    {
        i = i + 1;
    }
    assert forall|k: nat| k <= cap implies (indented(s@, k) <==> k <= i) by {
        if indented(s@, k) && k > i {
            assert(s@[i as int] == ' ');
        }
    }
    i
}

impl Layer {
    /// Whether the line `s` opens an entry of this level.
    pub fn condition(&self, s: &str) -> (r: bool)
        ensures
            r == opens(*self, s@),
    {
        let n = s.unicode_len();
        let colon = n > 0 && s.get_char(n - 1) == ':';
        let sp = leading_spaces(s, 4);
        match self {
            Layer::Category => sp < 2 && colon,
            Layer::Genus => sp == 2 && colon,
            Layer::Species => sp >= 4 && colon,
        }
    }
}

/// The lines `ls` cut into entries of the level `layer`: each entry starts
/// at a line that opens one and runs up to the next such line; lines before
/// the first are left out.
pub open spec fn chunks(ls: Seq<Seq<char>>, layer: Layer) -> Seq<Seq<Seq<char>>>
    decreases ls.len(),
{
    if ls.len() == 0 {
        Seq::empty()
    } else {
        let c = chunks(ls.drop_last(), layer);
        if opens(layer, ls.last()) {
            c.push(seq![ls.last()])
        } else if c.len() == 0 {
            c
        } else {
            c.update(c.len() - 1, c.last().push(ls.last()))
        }
    }
}

/// Cuts lines into entries of one level.
pub fn split_by(lines: Vec<String>, layer: Layer) -> (r: Vec<Vec<String>>)
    ensures
        r.deep_view() == chunks(lines.deep_view(), layer),
{
    let mut res: Vec<Vec<String>> = Vec::new();
    let mut i: usize = 0;
    while i < lines.len()
        invariant
            i <= lines.len(),
            res.deep_view() == chunks(lines.deep_view().take(i as int), layer),
        decreases lines.len() - i,
    {
        let l = lines[i].clone();
        let ghost pre = lines.deep_view().take(i as int + 1);
        proof {
            assert(pre.drop_last() =~= lines.deep_view().take(i as int));
            assert(pre.last() == l@);
        }
        let ghost old_res = res.deep_view();
        if layer.condition(l.as_str()) {
            let v = vec![l];
            assert(v.deep_view() =~= seq![pre.last()]);
            res.push(v);
            assert(res.deep_view() =~= old_res.push(seq![pre.last()]));
        } else if res.len() > 0 {
            let mut last = res.pop().unwrap();
            assert(last.deep_view() == old_res.last());
            let ghost rest = res.deep_view();
            assert(rest =~= old_res.drop_last());
            last.push(l);
            assert(last.deep_view() =~= old_res.last().push(pre.last()));
            res.push(last);
            assert(res.deep_view() =~= old_res.update(old_res.len() - 1, old_res.last().push(pre.last())));
        }
        i = i + 1;
    }
    assert(lines.deep_view().take(lines.len() as int) =~= lines.deep_view());
    res
}

/// `s` without its leading whitespace.
pub open spec fn trim_start(s: Seq<char>) -> Seq<char>
    decreases s.len(),
{
    if s.len() > 0 && is_space(s[0]) {
        trim_start(s.drop_first())
    } else {
        s
    }
}

/// `s` without its trailing whitespace.
pub open spec fn trim_end(s: Seq<char>) -> Seq<char>
    decreases s.len(),
{
    if s.len() > 0 && is_space(s.last()) {
        trim_end(s.drop_last())
    } else {
        s
    }
}

/// `s` with every copy of `p` at its start removed, one after another.
pub open spec fn strip_all(s: Seq<char>, p: Seq<char>) -> Seq<char>
    decreases s.len(),
{
    if p.len() > 0 && p.len() <= s.len() && s.take(p.len() as int) == p {
        strip_all(s.skip(p.len() as int), p)
    } else {
        s
    }
}

/// `s` without its colons.
pub open spec fn drop_colons(s: Seq<char>) -> Seq<char>
    decreases s.len(),
{
    if s.len() == 0 {
        s
    } else if s.last() == ':' {
        drop_colons(s.drop_last())
    } else {
        drop_colons(s.drop_last()).push(s.last())
    }
}

/// A dataset line reduced to its value: trimmed, without the `blurb: `,
/// `common_name: ` and `title: ` keys, and without colons.
pub open spec fn sanitised(s: Seq<char>) -> Seq<char> {
    drop_colons(
        strip_all(strip_all(strip_all(trim_end(trim_start(s)), "blurb: "@), "common_name: "@), "title: "@),
    )
}

/// The value of a line that may be missing (a missing line has none).
pub open spec fn sanitised_opt(o: Option<Seq<char>>) -> Seq<char> {
    match o {
        Some(s) => sanitised(s),
        None => sanitised(Seq::empty()),
    }
}

pub(crate) fn trim<'a>(s: &'a str) -> (r: &'a str)
    ensures
        r@ == trim_end(trim_start(s@)),
{
    let n = s.unicode_len();
    let mut a: usize = 0;
    assert(s@.skip(0) =~= s@);
    while a < n && space(s.get_char(a))
        invariant
            n == s@.len(),
            a <= n,
            trim_start(s@) == trim_start(s@.skip(a as int)),
        decreases n - a,
    {
        assert(s@.skip(a as int).drop_first() =~= s@.skip(a as int + 1));
        a = a + 1;
    }
    let t = s.substring_char(a, n);
    assert(t@ =~= s@.skip(a as int));
    let mut b: usize = n - a;
    assert(t@.take(b as int) =~= t@);
    while b > 0 && space(t.get_char(b - 1))
        invariant
            b <= t@.len(),
            t@.len() == n - a,
            trim_end(t@) == trim_end(t@.take(b as int)),
        decreases b,
    {
        assert(t@.take(b as int).drop_last() =~= t@.take(b as int - 1));
        b = b - 1;
    }
    let r = t.substring_char(0, b);
    assert(r@ =~= t@.take(b as int));
    r
}

pub(crate) fn starts_with(s: &str, p: &str) -> (r: bool)
    ensures
        r == (p@.len() <= s@.len() && s@.take(p@.len() as int) == p@),
{
    let n = s.unicode_len();
    let m = p.unicode_len();
    if m > n {
        return false;
    }
    let mut i: usize = 0;
    while i < m
        invariant
            n == s@.len(),
            m == p@.len(),
            m <= n,
            i <= m,
            forall|j: int| 0 <= j < i ==> s@[j] == p@[j],
        decreases m - i,
    {
        if s.get_char(i) != p.get_char(i) {
            assert(s@.take(m as int)[i as int] != p@[i as int]);
            return false;
        }
        i = i + 1;
    }
    assert(s@.take(m as int) =~= p@);
    true
}

fn strip_prefixes<'a>(s: &'a str, p: &str) -> (r: &'a str)
    ensures
        r@ == strip_all(s@, p@),
{
    let m = p.unicode_len();
    let mut cur = s;
    while m > 0 && starts_with(cur, p)
        invariant
            m == p@.len(),
            strip_all(s@, p@) == strip_all(cur@, p@),
        decreases cur@.len(),
    {
        let n = cur.unicode_len();
        let next = cur.substring_char(m, n);
        assert(next@ =~= cur@.skip(m as int));
        cur = next;
    }
    cur
}

fn without_colons(s: &str) -> (r: String)
    ensures
        r@ == drop_colons(s@),
{
    let n = s.unicode_len();
    let mut out = String::new();
    let mut i: usize = 0;
    while i < n
        invariant
            n == s@.len(),
            i <= n,
            out@ == drop_colons(s@.take(i as int)),
        decreases n - i,
    {
        let c = s.get_char(i);
        assert(s@.take(i as int + 1).drop_last() =~= s@.take(i as int));
        if c != ':' {
            push_char(&mut out, c);
        }
        i = i + 1;
    }
    assert(s@.take(n as int) =~= s@);
    out
}

/// Reduces a dataset line to its value; a missing line gives an empty one.
pub fn sanitise(line: Option<&String>) -> (r: String)
    ensures
        r@ == sanitised_opt(
            match line {
                Some(l) => Some(l@),
                None => None,
            },
        ),
{
    let empty = String::new();
    let s: &str = match line {
        Some(l) => l.as_str(),
        None => empty.as_str(),
    };
    let t = trim(s);
    let t = strip_prefixes(t, "blurb: ");
    let t = strip_prefixes(t, "common_name: ");
    let t = strip_prefixes(t, "title: ");
    without_colons(t)
}

/// Line `k` of an entry, where it has one.
pub open spec fn line_at(c: Seq<Seq<char>>, k: int) -> Option<Seq<char>> {
    if 0 <= k < c.len() {
        Some(c[k])
    } else {
        None
    }
}

/// The values of the lines `ls`, one after another.
pub open spec fn joined(ls: Seq<Seq<char>>) -> Seq<char>
    decreases ls.len(),
{
    if ls.len() == 0 {
        Seq::empty()
    } else {
        joined(ls.drop_last()) + sanitised(ls.last())
    }
}

/// The description of a species: the values of its lines after the second.
pub open spec fn blurb_of(c: Seq<Seq<char>>) -> Seq<char> {
    if c.len() <= 2 {
        Seq::empty()
    } else {
        joined(c.skip(2))
    }
}

/// `sp` is the species read from the entry `c`.
pub open spec fn species_from(sp: SpecInfo, c: Seq<Seq<char>>) -> bool {
    &&& sp.title@ == sanitised_opt(line_at(c, 0))
    &&& sp.name@ == sanitised_opt(line_at(c, 1))
    &&& sp.blurb@ == blurb_of(c)
}

/// `g` is the genus read from the entry `c`, with its species.
pub open spec fn genus_from(g: GenInfo, c: Seq<Seq<char>>) -> bool {
    &&& g.title@ == sanitised_opt(line_at(c, 0))
    &&& g.species.len() == chunks(c, Layer::Species).len()
    &&& forall|j: int|
        0 <= j < g.species.len() ==> species_from(#[trigger] g.species[j], chunks(c, Layer::Species)[j])
}

/// The line holds a category's title.
pub open spec fn is_title_line(l: Seq<char>) -> bool {
    let t = trim_end(trim_start(l));
    "title:"@.len() <= t.len() && t.take("title:"@.len() as int) == "title:"@
}

/// The first line of `c` that holds a title.
pub open spec fn find_title(c: Seq<Seq<char>>) -> Option<Seq<char>>
    decreases c.len(),
{
    if c.len() == 0 {
        None
    } else if is_title_line(c[0]) {
        Some(c[0])
    } else {
        find_title(c.drop_first())
    }
}

/// `cat` is the category read from the entry `c`; its genera are read only
/// when the whole dataset is asked for.
pub open spec fn category_from(cat: CatInfo, c: Seq<Seq<char>>, parse_all: Parse) -> bool {
    &&& cat.label@ == sanitised_opt(line_at(c, 0))
    &&& cat.title@ == sanitised_opt(find_title(c))
    &&& parse_all == Parse::JustCats ==> cat.genera.len() == 0
    &&& parse_all == Parse::All ==> {
        &&& cat.genera.len() == chunks(c, Layer::Genus).len()
        &&& forall|j: int|
            0 <= j < cat.genera.len() ==> genus_from(#[trigger] cat.genera[j], chunks(c, Layer::Genus)[j])
    }
}

fn sanitise_at(lines: &Vec<String>, k: usize) -> (r: String)
    ensures
        r@ == sanitised_opt(line_at(lines.deep_view(), k as int)),
{
    if k < lines.len() {
        sanitise(Some(&lines[k]))
    } else {
        sanitise(None)
    }
}

fn clone_lines(lines: &Vec<String>) -> (r: Vec<String>)
    ensures
        r.deep_view() == lines.deep_view(),
{
    let mut r: Vec<String> = Vec::new();
    let mut i: usize = 0;
    while i < lines.len()
        invariant
            i <= lines.len(),
            r.deep_view() =~= lines.deep_view().take(i as int),
        decreases lines.len() - i,
    {
        let s = lines[i].clone();
        let ghost before = r.deep_view();
        r.push(s);
        assert(r.deep_view() =~= before.push(lines.deep_view()[i as int]));
        assert(lines.deep_view().take(i as int + 1) =~= lines.deep_view().take(i as int).push(
            lines.deep_view()[i as int],
        ));
        i = i + 1;
    }
    assert(lines.deep_view().take(lines.len() as int) =~= lines.deep_view());
    r
}

/// Reads the species of a genus, one per entry.
pub fn struct_species(entries: Vec<Vec<String>>) -> (r: Vec<SpecInfo>)
    ensures
        r.len() == entries.len(),
        forall|i: int| 0 <= i < r.len() ==> species_from(#[trigger] r[i], entries.deep_view()[i]),
{
    let mut r: Vec<SpecInfo> = Vec::new();
    let mut i: usize = 0;
    while i < entries.len()
        invariant
            i <= entries.len(),
            r.len() == i,
            forall|k: int| 0 <= k < i ==> species_from(#[trigger] r[k], entries.deep_view()[k]),
        decreases entries.len() - i,
    {
        let c = &entries[i];
        assert(c.deep_view() == entries.deep_view()[i as int]);
        let title = sanitise_at(c, 0);
        let name = sanitise_at(c, 1);
        let mut blurb = String::new();
        let mut k: usize = 2;
        while k < c.len()
            invariant
                2 <= k,
                c.len() > 2 ==> k <= c.len(),
                c.len() > 2 ==> blurb@ == joined(c.deep_view().subrange(2, k as int)),
                c.len() <= 2 ==> blurb@.len() == 0,
            decreases c.len() - k,
        {
            let v = sanitise(Some(&c[k]));
            assert(c.deep_view().subrange(2, k as int + 1).drop_last() =~= c.deep_view().subrange(2, k as int));
            push_str(&mut blurb, v.as_str());
            k = k + 1;
        }
        proof {
            if c.len() > 2 {
                assert(c.deep_view().subrange(2, c.len() as int) =~= c.deep_view().skip(2));
            } else {
                assert(blurb@ =~= Seq::<char>::empty());
            }
        }
        r.push(SpecInfo { title, name, blurb });
        i = i + 1;
    }
    r
}

/// Reads the genera of a category, one per entry, with their species.
pub fn struct_genus(entries: Vec<Vec<String>>) -> (r: Vec<GenInfo>)
    ensures
        r.len() == entries.len(),
        forall|i: int| 0 <= i < r.len() ==> genus_from(#[trigger] r[i], entries.deep_view()[i]),
{
    let mut r: Vec<GenInfo> = Vec::new();
    let mut i: usize = 0;
    while i < entries.len()
        invariant
            i <= entries.len(),
            r.len() == i,
            forall|k: int| 0 <= k < i ==> genus_from(#[trigger] r[k], entries.deep_view()[k]),
        decreases entries.len() - i,
    {
        let c = &entries[i];
        assert(c.deep_view() == entries.deep_view()[i as int]);
        let title = sanitise_at(c, 0);
        let parts = split_by(clone_lines(c), Layer::Species);
        let species = struct_species(parts);
        r.push(GenInfo { title, species });
        i = i + 1;
    }
    r
}

fn title_line(c: &Vec<String>) -> (r: Option<usize>)
    ensures
        match r {
            Some(k) => k < c.len() && find_title(c.deep_view()) == Some(c.deep_view()[k as int]),
            None => find_title(c.deep_view()) is None,
        },
{
    let mut i: usize = 0;
    assert(c.deep_view().skip(0) =~= c.deep_view());
    while i < c.len()
        invariant
            i <= c.len(),
            find_title(c.deep_view()) == find_title(c.deep_view().skip(i as int)),
        decreases c.len() - i,
    {
        let t = trim(c[i].as_str());
        assert(c.deep_view().skip(i as int)[0] == c[i as int]@);
        if starts_with(t, "title:") {
            return Some(i);
        }
        assert(c.deep_view().skip(i as int).drop_first() =~= c.deep_view().skip(i as int + 1));
        i = i + 1;
    }
    None
}

/// Reads the categories of the dataset, one per entry; their genera only
/// when `parse_all` asks for them.
pub fn struct_category(entries: Vec<Vec<String>>, parse_all: Parse) -> (r: Vec<CatInfo>)
    ensures
        r.len() == entries.len(),
        forall|i: int|
            0 <= i < r.len() ==> category_from(#[trigger] r[i], entries.deep_view()[i], parse_all),
{
    let mut r: Vec<CatInfo> = Vec::new();
    let mut i: usize = 0;
    while i < entries.len()
        invariant
            i <= entries.len(),
            r.len() == i,
            forall|k: int|
                0 <= k < i ==> category_from(#[trigger] r[k], entries.deep_view()[k], parse_all),
        decreases entries.len() - i,
    {
        let c = &entries[i];
        assert(c.deep_view() == entries.deep_view()[i as int]);
        let label = sanitise_at(c, 0);
        let title = match title_line(c) {
            Some(k) => sanitise(Some(&c[k])),
            None => sanitise(None),
        };
        let genera = match parse_all {
            Parse::JustCats => Vec::new(),
            Parse::All => struct_genus(split_by(clone_lines(c), Layer::Genus)),
        };
        r.push(CatInfo { label, title, genera });
        i = i + 1;
    }
    r
}

/// The lines of a text, split at each line feed (the last may be empty).
pub open spec fn split_lines(s: Seq<char>) -> Seq<Seq<char>>
    decreases s.len(),
{
    if s.len() == 0 {
        seq![Seq::empty()]
    } else {
        let r = split_lines(s.drop_last());
        if s.last() == '\n' {
            r.push(Seq::empty())
        } else {
            r.update(r.len() - 1, r.last().push(s.last()))
        }
    }
}

/// Splits a text into its lines.
pub fn lines_of(text: &str) -> (r: Vec<String>)
    ensures
        r.deep_view() == split_lines(text@),
{
    let n = text.unicode_len();
    let mut done: Vec<String> = Vec::new();
    let mut cur = String::new();
    let mut i: usize = 0;
    assert(text@.take(0) =~= Seq::<char>::empty());
    assert(done.deep_view().push(cur@) =~= seq![Seq::<char>::empty()]);
    while i < n
        invariant
            n == text@.len(),
            i <= n,
            done.deep_view().push(cur@) == split_lines(text@.take(i as int)),
        decreases n - i,
    {
        let c = text.get_char(i);
        let ghost pre = text@.take(i as int + 1);
        assert(pre.drop_last() =~= text@.take(i as int));
        let ghost prev = done.deep_view().push(cur@);
        if c == '\n' {
            let line = cur;
            let ghost d0 = done.deep_view();
            done.push(line);
            cur = String::new();
            assert(done.deep_view() =~= d0.push(prev.last()));
            assert(done.deep_view().push(cur@) =~= prev.push(Seq::empty()));
        } else {
            push_char(&mut cur, c);
            assert(done.deep_view().push(cur@) =~= prev.update(prev.len() - 1, prev.last().push(c)));
        }
        i = i + 1;
    }
    assert(text@.take(n as int) =~= text@);
    let ghost d0 = done.deep_view();
    done.push(cur);
    assert(done.deep_view() =~= d0.push(cur@));
    done
}

/// Reads the dataset from its text: its categories, and their genera and
/// species when `parse_all` asks for them.
pub fn yaml(text: &str, parse_all: Parse) -> (r: Vec<CatInfo>)
    ensures
        r.len() == chunks(split_lines(text@), Layer::Category).len(),
        forall|i: int|
            0 <= i < r.len() ==> category_from(
                #[trigger] r[i],
                chunks(split_lines(text@), Layer::Category)[i],
                parse_all,
            ),
{
    let lines = lines_of(text);
    let entries = split_by(lines, Layer::Category);
    struct_category(entries, parse_all)
}

} // verus!
