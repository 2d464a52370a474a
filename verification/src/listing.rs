//! The listing handler: from the outcome of one directory scan to the one
//! response the client sees.
//!
//! The scan itself is the transport side's work; it hands this module a
//! plain list of entries (path and what the metadata said), or nothing when
//! the directory could not be enumerated at all. Everything after that
//! point — which entries count, what their base names are, what the
//! response holds — is decided and proved here.

use vstd::prelude::*;

verus! {

use crate::json::encode_names;
use crate::json::json_of;
use crate::response::HeaderView;
use crate::response::HttpResponse;
use crate::response::internal_error;
use crate::response::json_headers_of;
use crate::response::send_json;
use crate::text::last_segment;
use crate::text::last_segment_of;

/// What the metadata of one directory entry said: a regular file, something
/// else (a directory, a symbolic link, ...), or nothing, because metadata
/// resolution failed for that entry alone.
#[derive(Clone, Copy, PartialEq, Eq, Structural)]
pub enum EntryMeta {
    File,
    NotFile,
    Unknown,
}

/// One entry of the directory scan: its path as the enumeration yielded it,
/// and what the metadata said about it.
pub struct ScanEntry {
    pub path: String,
    pub meta: EntryMeta,
}

/// The mathematical value of a scan entry.
#[verifier::ext_equal]
pub struct ScanEntryView {
    pub path: Seq<char>,
    pub meta: EntryMeta,
}

impl View for ScanEntry {
    type V = ScanEntryView;

    open spec fn view(&self) -> ScanEntryView {
        ScanEntryView { path: self.path@, meta: self.meta }
    }
}

impl DeepView for ScanEntry {
    type V = ScanEntryView;

    open spec fn deep_view(&self) -> ScanEntryView {
        self@
    }
}

/// A filename the listing reports: it ends in `.htm` or `.html`, with at
/// least one character before the extension. The match is case-sensitive
/// and fixed; it is not a configurable glob.
pub open spec fn is_listed_name(s: Seq<char>) -> bool {
    ||| (s.len() > 4 && s.subrange(s.len() - 4, s.len() as int) == seq!['.', 'h', 't', 'm'])
    ||| (s.len() > 5 && s.subrange(s.len() - 5, s.len() as int) == seq!['.', 'h', 't', 'm', 'l'])
}

/// An entry the listing keeps: its metadata resolved to a regular file, and
/// the final segment of its path is a listed name. Entries whose metadata
/// failed to resolve are skipped, never reported and never fatal.
pub open spec fn is_kept(e: ScanEntryView) -> bool {
    e.meta == EntryMeta::File && is_listed_name(last_segment_of(e.path))
}

/// The base filenames the listing reports, in the order the scan yielded
/// their entries.
pub open spec fn file_names_of(es: Seq<ScanEntryView>) -> Seq<Seq<char>>
    decreases es.len(),
{
    if es.len() == 0 {
        Seq::empty()
    } else {
        file_names_of(es.drop_last()) + (if is_kept(es.last()) {
            seq![last_segment_of(es.last().path)]
        } else {
            Seq::empty()
        })
    }
}

/// Decides `is_listed_name` for one base filename.
pub fn is_listing_name(name: &str) -> (r: bool)
    ensures
        r == is_listed_name(name@),
{
    let n = name.unicode_len();
    if n >= 6 && name.get_char(n - 5) == '.' && name.get_char(n - 4) == 'h' && name.get_char(
        n - 3,
    ) == 't' && name.get_char(n - 2) == 'm' && name.get_char(n - 1) == 'l' {
        proof {
            assert(name@.subrange(name@.len() - 5, name@.len() as int) =~= seq![
                '.',
                'h',
                't',
                'm',
                'l',
            ]);
        }
        true
    } else if n >= 5 && name.get_char(n - 4) == '.' && name.get_char(n - 3) == 'h'
        && name.get_char(n - 2) == 't' && name.get_char(n - 1) == 'm' {
        proof {
            assert(name@.subrange(name@.len() - 4, name@.len() as int) =~= seq![
                '.',
                'h',
                't',
                'm',
            ]);
        }
        true
    } else {
        proof {
            let s = name@;
            let l = s.len() as int;
            if s.len() > 4 && s.subrange(l - 4, l) == seq!['.', 'h', 't', 'm'] {
                assert(s[l - 4] == s.subrange(l - 4, l)[0]);
                assert(s[l - 3] == s.subrange(l - 4, l)[1]);
                assert(s[l - 2] == s.subrange(l - 4, l)[2]);
                assert(s[l - 1] == s.subrange(l - 4, l)[3]);
            }
            if s.len() > 5 && s.subrange(l - 5, l) == seq!['.', 'h', 't', 'm', 'l'] {
                assert(s[l - 5] == s.subrange(l - 5, l)[0]);
                assert(s[l - 4] == s.subrange(l - 5, l)[1]);
                assert(s[l - 3] == s.subrange(l - 5, l)[2]);
                assert(s[l - 2] == s.subrange(l - 5, l)[3]);
                assert(s[l - 1] == s.subrange(l - 5, l)[4]);
            }
        }
        false
    }
}

/// The filtered scan: exactly the base names of the kept entries, in scan
/// order.
pub fn list_names(entries: &Vec<ScanEntry>) -> (names: Vec<String>)
    ensures
        names.deep_view() == file_names_of(entries.deep_view()),
{
    let mut names: Vec<String> = Vec::new();
    let mut i: usize = 0;
    while i < entries.len()
        invariant
            0 <= i <= entries@.len(),
            names.deep_view() == file_names_of(entries.deep_view().take(i as int)),
        decreases entries@.len() - i,
    {
        let ghost evs = entries.deep_view();
        let ghost names_before = names.deep_view();
        let entry = &entries[i];
        if entry.meta == EntryMeta::File {
            let base = last_segment(entry.path.as_str());
            if is_listing_name(base.as_str()) {
                names.push(base);
            }
        }
        proof {
            assert(evs.take(i + 1).drop_last() =~= evs.take(i as int));
            assert(evs.take(i + 1).last() == evs[i as int]);
            assert(evs[i as int] == entries@[i as int]@);
            if is_kept(evs[i as int]) {
                assert(names.deep_view() =~= names_before.push(
                    last_segment_of(evs[i as int].path),
                ));
            } else {
                assert(names.deep_view() =~= names_before);
            }
            assert(names.deep_view() =~= file_names_of(evs.take(i + 1)));
        }
        i = i + 1;
    }
    proof {
        assert(entries.deep_view().take(entries@.len() as int) =~= entries.deep_view());
    }
    names
}

/// The listing handler. `scan` is the outcome of enumerating the configured
/// directory: `None` when the enumeration itself failed, otherwise the
/// entries it yielded. Exactly one response comes back: on failure status
/// 500 with a short plain-text message and no JSON, on success status 200
/// with the JSON array of the kept base names and its exact byte length.
pub fn list_file(scan: Option<Vec<ScanEntry>>) -> (r: HttpResponse)
    ensures
        scan is None ==> (r.status == 500 && r.body@ == "can't list files"@
            && r.headers.deep_view() == (seq![
            HeaderView { name: "Content-type"@, value: "text/plain"@ },
        ])),
        scan matches Some(entries) ==> ({
            let names = file_names_of(entries.deep_view());
            &&& r.status == 200
            &&& r.body@ == json_of(names)
            &&& (names.len() == 0 ==> r.body@ == "[]"@)
            &&& r.headers.deep_view() == json_headers_of(r.body@)
        }),
{
    match scan {
        None => internal_error("can't list files"),
        Some(entries) => {
            let names = list_names(&entries);
            let body = encode_names(&names);
            send_json(body)
        },
    }
}

/// The listing holds exactly the base filenames of the kept entries and no
/// others: a name is in the result if and only if some scanned entry is a
/// regular file whose base name is that name and is a listed name.
pub proof fn lemma_file_names_membership(es: Seq<ScanEntryView>, name: Seq<char>)
    ensures
        file_names_of(es).contains(name) <==> (exists|i: int|
            0 <= i < es.len() && is_kept(es[i]) && name == last_segment_of(es[i].path)),
    decreases es.len(),
{
    if es.len() == 0 {
    } else {
        lemma_file_names_membership(es.drop_last(), name);
        let prefix = file_names_of(es.drop_last());
        let last = es.last();
        if file_names_of(es).contains(name) {
            let j = choose|j: int|
                0 <= j < file_names_of(es).len() && file_names_of(es)[j] == name;
            if j < prefix.len() {
                assert(prefix.contains(name));
                let i = choose|i: int|
                    0 <= i < es.drop_last().len() && is_kept(es.drop_last()[i]) && name
                        == last_segment_of(es.drop_last()[i].path);
                assert(es.drop_last()[i] == es[i]);
                assert(is_kept(es[i]) && name == last_segment_of(es[i].path));
            } else {
                assert(is_kept(last));
                assert(name == last_segment_of(last.path));
                assert(es[es.len() - 1] == last);
            }
        }
        if exists|i: int| 0 <= i < es.len() && is_kept(es[i]) && name == last_segment_of(
            es[i].path,
        ) {
            let i = choose|i: int|
                0 <= i < es.len() && is_kept(es[i]) && name == last_segment_of(es[i].path);
            if i < es.len() - 1 {
                assert(es.drop_last()[i] == es[i]);
                assert(prefix.contains(name));
                let j = choose|j: int| 0 <= j < prefix.len() && prefix[j] == name;
                assert(file_names_of(es)[j] == name);
                assert(file_names_of(es).contains(name));
            } else {
                assert(is_kept(last));
                assert(file_names_of(es)[prefix.len() as int] == name);
                assert(file_names_of(es).contains(name));
            }
        }
    }
}

/// Two scans of an unchanged directory yield the same entries, though the
/// enumeration may yield them in any order; the reported names then form
/// the same set.
pub proof fn lemma_file_names_set_stable(e1: Seq<ScanEntryView>, e2: Seq<ScanEntryView>)
    requires
        e1.to_multiset() == e2.to_multiset(),
    ensures
        file_names_of(e1).to_set() == file_names_of(e2).to_set(),
{
    broadcast use vstd::seq_lib::group_to_multiset_ensures;

    assert forall|name: Seq<char>|
        file_names_of(e1).contains(name) implies file_names_of(e2).contains(name) by {
        lemma_names_carry_over(e1, e2, name);
    }
    assert forall|name: Seq<char>|
        file_names_of(e2).contains(name) implies file_names_of(e1).contains(name) by {
        lemma_names_carry_over(e2, e1, name);
    }
    assert(file_names_of(e1).to_set() =~= file_names_of(e2).to_set());
}

proof fn lemma_names_carry_over(e1: Seq<ScanEntryView>, e2: Seq<ScanEntryView>, name: Seq<char>)
    requires
        e1.to_multiset() == e2.to_multiset(),
        file_names_of(e1).contains(name),
    ensures
        file_names_of(e2).contains(name),
{
    broadcast use vstd::seq_lib::group_to_multiset_ensures;

    lemma_file_names_membership(e1, name);
    lemma_file_names_membership(e2, name);
    let i = choose|i: int|
        0 <= i < e1.len() && is_kept(e1[i]) && name == last_segment_of(e1[i].path);
    let x = e1[i];
    assert(e1.contains(x));
    assert(e1.to_multiset().count(x) > 0);
    assert(e2.to_multiset().count(x) > 0);
    assert(e2.contains(x));
    let j = choose|j: int| 0 <= j < e2.len() && e2[j] == x;
    assert(is_kept(e2[j]) && name == last_segment_of(e2[j].path));
}

} // verus!
