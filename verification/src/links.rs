use vstd::prelude::*;

use vstd::string::*;

use crate::model::Issue;
use crate::order::{lemma_text_lt_order, strictly_sorted, text_less, text_lt};

verus! {

/// The texts of a vector of strings.
pub open spec fn texts(v: Seq<String>) -> Seq<Seq<char>> {
    v.map_values(|s: String| s@)
}

/// Inserts `s` into the strictly sorted `v` unless `v` already holds it.
fn insert_sorted_unique(v: &mut Vec<String>, s: String)
    requires
        strictly_sorted(texts(old(v)@)),
    ensures
        strictly_sorted(texts(final(v)@)),
        texts(final(v)@).to_set() == texts(old(v)@).to_set().insert(s@),
{
    let ghost before = texts(v@);
    let n = v.len();
    let mut i: usize = 0;
    while i < n && text_less(v[i].as_str(), s.as_str())
        invariant
            n == v.len(),
            i <= n,
            texts(v@) == before,
            forall|j: int| 0 <= j < i ==> text_lt(#[trigger] before[j], s@),
        decreases n - i,
    {
        i = i + 1;
    }
    if i < n && v[i] == s {
        assert(before[i as int] == s@);
        assert(before.to_set().insert(s@) =~= before.to_set());
        return;
    }
    // Here every element before `i` is below `s` and every later one above it.
    assert forall|k: int| i <= k < n implies text_lt(s@, #[trigger] before[k]) by {
        lemma_text_lt_order(before[i as int], s@, s@);
        if k > i {
            assert(text_lt(before[i as int], before[k]));
            lemma_text_lt_order(s@, before[i as int], before[k]);
        }
    }
    v.insert(i, s);
    let ghost after = texts(v@);
    assert(after =~= before.insert(i as int, s@));
    assert forall|p: int, q: int| 0 <= p < q < after.len() implies text_lt(
        #[trigger] after[p],
        #[trigger] after[q],
    ) by {
        if q < i {
        } else if q == i {
        } else if p < i {
            assert(text_lt(before[p], s@));
            assert(text_lt(s@, before[q - 1]));
            lemma_text_lt_order(before[p], s@, before[q - 1]);
        } else if p == i {
        } else {
        }
    }
    assert forall|x: Seq<char>| after.to_set().contains(x) <==> before.to_set().insert(
        s@,
    ).contains(x) by {
        if after.to_set().contains(x) {
            let p = choose|p: int| 0 <= p < after.len() && after[p] == x;
            if p < i {
                assert(before[p] == x);
            } else if p > i {
                assert(before[p - 1] == x);
            }
        }
        if before.to_set().contains(x) {
            let p = choose|p: int| 0 <= p < before.len() && before[p] == x;
            if p < i {
                assert(after[p] == x);
            } else {
                assert(after[p + 1] == x);
            }
        }
        if x == s@ {
            assert(after[i as int] == x);
        }
    }
    assert(after.to_set() =~= before.to_set().insert(s@));
}

/// Sorts `links` by the order of strings and drops repeated entries
/// (what `sort` followed by `dedup` leaves).
pub fn sort_unique(links: Vec<String>) -> (res: Vec<String>)
    ensures
        strictly_sorted(texts(res@)),
        texts(res@).to_set() == texts(links@).to_set(),
{
    let mut out: Vec<String> = Vec::new();
    let n = links.len();
    let mut i: usize = 0;
    assert(texts(out@).to_set() =~= texts(links@).take(0).to_set());
    while i < n
        invariant
            n == links.len(),
            i <= n,
            strictly_sorted(texts(out@)),
            texts(out@).to_set() == texts(links@).take(i as int).to_set(),
        decreases n - i,
    {
        let item = links[i].clone();
        insert_sorted_unique(&mut out, item);
        assert(texts(links@).take(i + 1) =~= texts(links@).take(i as int).push(links@[i as int]@));
        proof {
            texts(links@).take(i as int).lemma_push_to_set_commute(links@[i as int]@);
        }
        assert(texts(links@).take(i + 1).to_set() =~= texts(links@).take(i as int).to_set().insert(
            links@[i as int]@,
        ));
        i = i + 1;
    }
    assert(texts(links@).take(n as int) =~= texts(links@));
    out
}


/// `part` is a contiguous piece of `whole`.
pub open spec fn occurs_in(part: Seq<char>, whole: Seq<char>) -> bool {
    exists|a: int, b: int| 0 <= a <= b <= whole.len() && whole.subrange(a, b) == part
}

/// The texts of a vector of optional strings.
pub open spec fn optional_texts(v: Seq<Option<String>>) -> Seq<Option<Seq<char>>> {
    v.map_values(
        |o: Option<String>|
            match o {
                Some(s) => Some(s@),
                None => None,
            },
    )
}

#[verifier::external_type_specification]
#[verifier::external_body]
pub struct ExRegexError(regex::Error);

/// Whether `regex::Regex::new` accepts `pattern`.
pub uninterp spec fn regex_compiles(pattern: Seq<char>) -> bool;

/// For each match that `regex::Regex::captures_iter` finds of `pattern` in
/// `haystack`, in order, the text of capture group `group` (`None` where the
/// group took no part in the match).
pub uninterp spec fn regex_group_captures(
    pattern: Seq<char>,
    haystack: Seq<char>,
    group: nat,
) -> Seq<Option<Seq<char>>>;

/// Compiles `pattern` with `regex::Regex::new` and lists, for every match of
/// `Regex::captures_iter` over `haystack`, what `Captures::get(group)` gives.
/// Trusted: the result is the named `regex_group_captures`; each captured text
/// is a piece of the haystack, and group 0 (the whole match) is always present,
/// as the crate documents. The order and extent of the matches are not stated.
#[verifier::external_body]
fn regex_capture_group(pattern: &str, haystack: &str, group: usize) -> (res: Result<
    Vec<Option<String>>,
    regex::Error,
>)
    ensures
        res is Ok <==> regex_compiles(pattern@),
        res matches Ok(v) ==> optional_texts(v@) == regex_group_captures(
            pattern@,
            haystack@,
            group as nat,
        ),
        res matches Ok(v) ==> forall|i: int|
            0 <= i < v@.len() && #[trigger] v@[i] is Some ==> occurs_in(v@[i]->0@, haystack@),
        res matches Ok(v) ==> (group == 0 ==> forall|i: int| 0 <= i < v@.len() ==> #[trigger] v@[i] is Some),
{
    let re = regex::Regex::new(pattern)?;
    let mut found = Vec::new();
    for caps in re.captures_iter(haystack) {
        found.push(caps.get(group).map(|m| m.as_str().to_string()));
    }
    Ok(found)
}

/// URLs written out in a text.
pub const URL_PATTERN: &'static str = r#"https?://[^\s<>"{}|\\^`\[\]]+"#;

/// Markdown links `[text](url)`; group 2 is the url.
pub const MARKDOWN_LINK_PATTERN: &'static str = r#"\[([^\]]+)\]\(([^)]+)\)"#;

/// The texts present in `caps`, in order.
pub open spec fn present_texts(caps: Seq<Option<Seq<char>>>) -> Seq<Seq<char>>
    decreases caps.len(),
{
    if caps.len() == 0 {
        Seq::empty()
    } else {
        let rest = present_texts(caps.drop_last());
        match caps.last() {
            Some(t) => rest.push(t),
            None => rest,
        }
    }
}

/// Every text in `present_texts(caps)` is one of the captures.
pub proof fn lemma_present_texts_from(caps: Seq<Option<Seq<char>>>, k: int)
    requires
        0 <= k < present_texts(caps).len(),
    ensures
        exists|i: int| 0 <= i < caps.len() && caps[i] == Some(present_texts(caps)[k]),
    decreases caps.len(),
{
    let rest = present_texts(caps.drop_last());
    if k < rest.len() {
        lemma_present_texts_from(caps.drop_last(), k);
        let i = choose|i: int| 0 <= i < caps.drop_last().len() && caps.drop_last()[i] == Some(rest[k]);
        assert(caps[i] == Some(present_texts(caps)[k]));
    } else {
        assert(caps[caps.len() - 1] == Some(present_texts(caps)[k]));
    }
}

/// The strings present in `caps`, in order.
pub fn present_links(caps: &Vec<Option<String>>) -> (res: Vec<String>)
    ensures
        texts(res@) == present_texts(optional_texts(caps@)),
{
    let mut out: Vec<String> = Vec::new();
    let n = caps.len();
    let mut i: usize = 0;
    assert(optional_texts(caps@).take(0) =~= Seq::<Option<Seq<char>>>::empty());
    while i < n
        invariant
            n == caps.len(),
            i <= n,
            texts(out@) == present_texts(optional_texts(caps@).take(i as int)),
        decreases n - i,
    {
        assert(optional_texts(caps@).take(i + 1).drop_last() =~= optional_texts(caps@).take(
            i as int,
        ));
        match &caps[i] {
            Some(s) => {
                out.push(s.clone());
                assert(texts(out@) =~= present_texts(optional_texts(caps@).take(i + 1)));
            },
            None => {},
        }
        i = i + 1;
    }
    assert(optional_texts(caps@).take(n as int) =~= optional_texts(caps@));
    out
}

/// The texts that the captures of group `group` of `pattern` give in `text`;
/// none when the pattern does not compile.
pub open spec fn pattern_links(pattern: Seq<char>, text: Seq<char>, group: nat) -> Seq<Seq<char>> {
    if regex_compiles(pattern) {
        present_texts(regex_group_captures(pattern, text, group))
    } else {
        Seq::empty()
    }
}

/// The links found in a description: URLs written out, then the targets of
/// Markdown links.
pub open spec fn description_links(text: Seq<char>) -> Seq<Seq<char>> {
    pattern_links(URL_PATTERN@, text, 0) + pattern_links(MARKDOWN_LINK_PATTERN@, text, 2)
}

/// Texts of group `group` of `pattern` in `text`, each a piece of `text`.
fn pattern_links_in(pattern: &str, text: &str, group: usize) -> (res: Vec<String>)
    ensures
        texts(res@) == pattern_links(pattern@, text@, group as nat),
        forall|k: int| 0 <= k < res@.len() ==> occurs_in(#[trigger] texts(res@)[k], text@),
{
    match regex_capture_group(pattern, text, group) {
        Ok(caps) => {
            let out = present_links(&caps);
            assert forall|k: int| 0 <= k < out@.len() implies occurs_in(
                #[trigger] texts(out@)[k],
                text@,
            ) by {
                lemma_present_texts_from(optional_texts(caps@), k);
                let i = choose|i: int|
                    0 <= i < optional_texts(caps@).len() && optional_texts(caps@)[i] == Some(
                        present_texts(optional_texts(caps@))[k],
                    );
                assert(caps@[i] is Some);
            }
            out
        },
        Err(_) => Vec::new(),
    }
}

/// The links written in `text`: URLs, then the targets of Markdown links.
pub fn extract_links_from_text(text: &str) -> (res: Vec<String>)
    ensures
        texts(res@) == description_links(text@),
        forall|k: int| 0 <= k < res@.len() ==> occurs_in(#[trigger] texts(res@)[k], text@),
{
    let mut links = pattern_links_in(URL_PATTERN, text, 0);
    let mut markdown = pattern_links_in(MARKDOWN_LINK_PATTERN, text, 2);
    let ghost first = texts(links@);
    let ghost second = texts(markdown@);
    links.append(&mut markdown);
    assert(texts(links@) =~= first + second);
    assert forall|k: int| 0 <= k < links@.len() implies occurs_in(#[trigger] texts(links@)[k], text@) by {
        if k < first.len() {
            assert(texts(links@)[k] == first[k]);
        } else {
            assert(texts(links@)[k] == second[k - first.len()]);
        }
    }
    links
}

/// Every link of an issue before sorting: its own URL first, then the links
/// written in its description.
pub open spec fn issue_links(url: Seq<char>, description: Option<Seq<char>>) -> Seq<Seq<char>> {
    match description {
        Some(d) => seq![url] + description_links(d),
        None => seq![url],
    }
}

/// The description's text, if the issue has one.
pub open spec fn description_text(issue: &Issue) -> Option<Seq<char>> {
    match issue.description {
        Some(d) => Some(d@),
        None => None,
    }
}

/// The links of an issue: its URL and the links in its description, sorted
/// and without repeats.
pub fn get_issue_links(issue: &Issue) -> (res: Vec<String>)
    ensures
        strictly_sorted(texts(res@)),
        texts(res@).to_set() == issue_links(issue.url@, description_text(issue)).to_set(),
        texts(res@).contains(issue.url@),
        texts(res@).no_duplicates(),
        res@.len() == issue_links(issue.url@, description_text(issue)).to_set().len(),
        forall|k: int|
            0 <= k < res@.len() ==> #[trigger] texts(res@)[k] == issue.url@ || (
            description_text(issue) is Some && occurs_in(texts(res@)[k], description_text(issue)->0)),
{
    let mut all_links: Vec<String> = Vec::new();
    all_links.push(issue.url.clone());
    let ghost found: Seq<Seq<char>> = Seq::empty();
    if let Some(desc) = &issue.description {
        let mut extracted = extract_links_from_text(desc.as_str());
        proof {
            found = texts(extracted@);
        }
        all_links.append(&mut extracted);
    }
    assert(texts(all_links@) =~= issue_links(issue.url@, description_text(issue)));
    assert(texts(all_links@) =~= seq![issue.url@] + found);
    let res = sort_unique(all_links);
    assert(texts(all_links@)[0] == issue.url@);
    assert(texts(all_links@).to_set().contains(issue.url@));
    assert forall|k: int| 0 <= k < res@.len() implies #[trigger] texts(res@)[k] == issue.url@ || (
    description_text(issue) is Some && occurs_in(texts(res@)[k], description_text(issue)->0)) by {
        let x = texts(res@)[k];
        assert(texts(res@).to_set().contains(x));
        assert(texts(all_links@).to_set().contains(x));
        let p = choose|p: int| 0 <= p < texts(all_links@).len() && texts(all_links@)[p] == x;
        if p > 0 {
            assert(found[p - 1] == x);
        }
    }
    assert forall|i: int, j: int| 0 <= i < res@.len() && 0 <= j < res@.len() && i != j implies texts(
        res@,
    )[i] != texts(res@)[j] by {
        if i < j {
            assert(text_lt(texts(res@)[i], texts(res@)[j]));
        } else {
            assert(text_lt(texts(res@)[j], texts(res@)[i]));
        }
        lemma_text_lt_order(texts(res@)[i], texts(res@)[i], texts(res@)[i]);
    }
    proof {
        texts(res@).unique_seq_to_set();
    }
    res
}

} // verus!
