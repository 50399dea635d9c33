//! The streaming rewrite of an XML property list.
//!
//! A property list is treated as a flat sequence of structural events:
//! text runs, comments, CDATA sections, processing instructions and
//! declarations, and tags.  The rewrite walks the events once, and in front
//! of the first event that closes a `dict` element it inserts a fixed
//! association fragment declaring the `org-protocol` URL scheme; every other
//! character of the document passes through unchanged.  The walk always
//! covers the whole document: one holding an event that never closes is
//! reported as unparsable, wherever that event lies, before anything is
//! handed back for writing; a document without a dictionary-closing event is
//! reported as lacking a dictionary, since silently returning it unchanged
//! would claim an association that was never made.

use vstd::prelude::*;

use crate::text::{find_from, lemma_find_from_some, occurs_at, find_pat, starts_with_at};

verus! {

/// Whitespace, as XML permits it inside a closing tag.
pub open spec fn xml_ws(c: char) -> bool {
    c == ' ' || c == '\t' || c == '\n' || c == '\r'
}

/// The exclusive end of the structural event that starts at position `i`.
///
/// A character other than `<` opens a text run, which extends to the next
/// `<` or to the end of the document.  `<!--` opens a comment, closed by
/// `-->`; `<![CDATA[` a CDATA section, closed by `]]>`; `<?` a processing
/// instruction or the XML declaration, closed by `?>`; any other `<` a tag
/// or a `<!` declaration, closed by the next `>`.  `None` means the event
/// never closes, so the document cannot be parsed.
pub open spec fn event_end(s: Seq<char>, i: int) -> Option<int>
    recommends
        0 <= i < s.len(),
{
    if s[i] != '<' {
        match find_from(s, "<"@, i + 1) {
            Some(j) => Some(j),
            None => Some(s.len() as int),
        }
    } else if occurs_at(s, "<!--"@, i) {
        match find_from(s, "-->"@, i + 4) {
            Some(j) => Some(j + 3),
            None => None,
        }
    } else if occurs_at(s, "<![CDATA["@, i) {
        match find_from(s, "]]>"@, i + 9) {
            Some(j) => Some(j + 3),
            None => None,
        }
    } else if occurs_at(s, "<?"@, i) {
        match find_from(s, "?>"@, i + 2) {
            Some(j) => Some(j + 2),
            None => None,
        }
    } else {
        match find_from(s, ">"@, i + 1) {
            Some(j) => Some(j + 1),
            None => None,
        }
    }
}

/// The event spanning positions `i` (inclusive) to `j` (exclusive) is a
/// closing tag for a `dict` element: `</dict`, optional whitespace, `>`.
pub open spec fn is_dict_close(s: Seq<char>, i: int, j: int) -> bool {
    &&& occurs_at(s, "</dict"@, i)
    &&& i + 7 <= j <= s.len()
    &&& (forall|k: int| i + 6 <= k < j - 1 ==> xml_ws(s[k]))
    &&& s[j - 1] == '>'
}

/// What a scan of the document's events finds.
pub ghost enum ScanResult {
    /// Every event of the document closes, and the first dictionary-closing
    /// event starts here.
    Found { at: int },
    /// The document parsed to its end, but no dictionary element closes in it.
    NoDictionary,
    /// An event never closes, so the document cannot be parsed.
    Malformed,
}

/// Every event from position `i` to the end of the document closes.
pub open spec fn events_close_from(s: Seq<char>, i: int) -> bool
    decreases s.len() - i,
{
    if i < 0 || i >= s.len() {
        true
    } else {
        match event_end(s, i) {
            None => false,
            Some(j) => if j <= i || j > s.len() {
                false
            } else {
                events_close_from(s, j)
            },
        }
    }
}

/// Walks the events of `s` from position `i` and reports the first
/// dictionary-closing event at or after it.  The whole remainder of the
/// document is walked: an event that never closes makes the document
/// malformed wherever it lies, also after the found position.  The guards on
/// `j` can never fire (an event always ends after it starts, within the
/// document); they keep the recursion visibly decreasing.
pub open spec fn scan_from(s: Seq<char>, i: int) -> ScanResult
    decreases s.len() - i,
{
    if i < 0 || i >= s.len() {
        ScanResult::NoDictionary
    } else {
        match event_end(s, i) {
            None => ScanResult::Malformed,
            Some(j) => if is_dict_close(s, i, j) {
                if events_close_from(s, j) {
                    ScanResult::Found { at: i }
                } else {
                    ScanResult::Malformed
                }
            } else if j <= i || j > s.len() {
                ScanResult::Malformed
            } else {
                scan_from(s, j)
            },
        }
    }
}

/// How the rewrite can fail.
#[derive(Debug, PartialEq, Eq, Structural, Clone, Copy)]
pub enum PlistError {
    /// An event never closes: the document is not well-formed XML.
    Unparsable,
    /// The document holds no dictionary element to associate the scheme with.
    MissingDictionary,
}

/// Whether `c` is whitespace as `xml_ws` describes it.
fn is_xml_ws(c: char) -> (r: bool)
    ensures
        r == xml_ws(c),
{
    c == ' ' || c == '\t' || c == '\n' || c == '\r'
}

/// The end of the event starting at `i`, as `event_end` describes it.
fn next_event_end(s: &str, i: usize) -> (r: Option<usize>)
    requires
        i < s@.len(),
    ensures
        match r {
            Some(j) => event_end(s@, i as int) == Some(j as int) && i < j <= s@.len(),
            None => event_end(s@, i as int) is None,
        },
{
    let n = s.unicode_len();
    let c = s.get_char(i);
    if c != '<' {
        match find_pat(s, "<", i + 1) {
            Some(j) => {
                proof {
                    lemma_find_from_some(s@, "<"@, i + 1, j as int);
                    reveal_strlit("<");
                }
                Some(j)
            },
            None => Some(n),
        }
    } else if starts_with_at(s, "<!--", i) {
        proof {
            reveal_strlit("<!--");
        }
        match find_pat(s, "-->", i + 4) {
            Some(j) => {
                proof {
                    lemma_find_from_some(s@, "-->"@, i + 4, j as int);
                    reveal_strlit("-->");
                }
                Some(j + 3)
            },
            None => None,
        }
    } else if starts_with_at(s, "<![CDATA[", i) {
        proof {
            reveal_strlit("<![CDATA[");
        }
        match find_pat(s, "]]>", i + 9) {
            Some(j) => {
                proof {
                    lemma_find_from_some(s@, "]]>"@, i + 9, j as int);
                    reveal_strlit("]]>");
                }
                Some(j + 3)
            },
            None => None,
        }
    } else if starts_with_at(s, "<?", i) {
        proof {
            reveal_strlit("<?");
        }
        match find_pat(s, "?>", i + 2) {
            Some(j) => {
                proof {
                    lemma_find_from_some(s@, "?>"@, i + 2, j as int);
                    reveal_strlit("?>");
                }
                Some(j + 2)
            },
            None => None,
        }
    } else {
        match find_pat(s, ">", i + 1) {
            Some(j) => {
                proof {
                    lemma_find_from_some(s@, ">"@, i + 1, j as int);
                    reveal_strlit(">");
                }
                Some(j + 1)
            },
            None => None,
        }
    }
}

/// Whether the event from `i` to `j` closes a `dict` element, as
/// `is_dict_close` describes it.
fn check_dict_close(s: &str, i: usize, j: usize) -> (r: bool)
    requires
        i < j,
        j <= s@.len(),
    ensures
        r == is_dict_close(s@, i as int, j as int),
{
    if !starts_with_at(s, "</dict", i) {
        return false;
    }
    proof {
        reveal_strlit("</dict");
    }
    if j - i < 7 {
        return false;
    }
    if s.get_char(j - 1) != '>' {
        return false;
    }
    let mut k: usize = i + 6;
    while k < j - 1
        invariant
            i + 6 <= k <= j - 1,
            i + 7 <= j <= s@.len(),
            forall|t: int| i + 6 <= t < k ==> xml_ws(s@[t]),
        decreases j - k,
    {
        if !is_xml_ws(s.get_char(k)) {
            proof {
                assert(!xml_ws(s@[k as int]));
            }
            return false;
        }
        k = k + 1;
    }
    true
}

/// The association fragment: a `CFBundleURLTypes` entry naming the handler
/// `org-protocol handler` and the scheme `org-protocol`.
pub open spec fn fragment_view() -> Seq<char> {
    "<key>CFBundleURLTypes</key>\n<array>\n  <dict>\n    <key>CFBundleURLName</key>\n    <string>org-protocol handler</string>\n    <key>CFBundleURLSchemes</key>\n    <array>\n      <string>org-protocol</string>\n    </array>\n  </dict>\n</array>\n"@
}

/// The association fragment as text.
pub fn url_association_fragment() -> (r: &'static str)
    ensures
        r@ == fragment_view(),
{
    "<key>CFBundleURLTypes</key>\n<array>\n  <dict>\n    <key>CFBundleURLName</key>\n    <string>org-protocol handler</string>\n    <key>CFBundleURLSchemes</key>\n    <array>\n      <string>org-protocol</string>\n    </array>\n  </dict>\n</array>\n"
}

/// The document with the association fragment inserted in front of its first
/// dictionary-closing event.
pub open spec fn rewritten(s: Seq<char>) -> Seq<char>
    recommends
        scan_from(s, 0) is Found,
{
    match scan_from(s, 0) {
        ScanResult::Found { at } => s.subrange(0, at) + fragment_view() + s.subrange(
            at,
            s.len() as int,
        ),
        _ => s,
    }
}

/// Inserts the association fragment in front of the first dictionary-closing
/// event, leaving every other character unchanged.  It fails, and says how,
/// on a document holding an event that never closes — wherever that event
/// lies — and on one without a dictionary-closing event; only a document
/// that parses whole is handed back for writing.
pub fn rewrite_plist(input: &str) -> (r: Result<String, PlistError>)
    ensures
        match r {
            Ok(out) => scan_from(input@, 0) is Found && out@ == rewritten(input@),
            Err(PlistError::MissingDictionary) => scan_from(input@, 0)
                == ScanResult::NoDictionary,
            Err(PlistError::Unparsable) => scan_from(input@, 0) == ScanResult::Malformed,
        },
{
    let n = input.unicode_len();
    match scan_dict_close(input) {
        Err(e) => Err(e),
        Ok(at) => {
            let head = input.substring_char(0, at);
            let tail = input.substring_char(at, n);
            let out = String::from_str(head).concat(url_association_fragment()).concat(tail);
            Ok(out)
        },
    }
}

/// What each rewrite failure means, as text.
pub open spec fn plist_error_message(e: PlistError) -> Seq<char> {
    match e {
        PlistError::Unparsable => "the property list is not well-formed XML"@,
        PlistError::MissingDictionary => "the property list has no dictionary element"@,
    }
}

/// The message for a rewrite failure.
pub fn plist_error_text(e: PlistError) -> (r: &'static str)
    ensures
        r@ == plist_error_message(e),
{
    match e {
        PlistError::Unparsable => "the property list is not well-formed XML",
        PlistError::MissingDictionary => "the property list has no dictionary element",
    }
}

/// Whether every event from `from` to the end of the document closes, as
/// `events_close_from` describes it.
fn check_events_close(s: &str, from: usize) -> (r: bool)
    requires
        from <= s@.len(),
    ensures
        r == events_close_from(s@, from as int),
{
    let n = s.unicode_len();
    let mut k: usize = from;
    while k < n
        invariant
            from <= k <= n,
            n == s@.len(),
            events_close_from(s@, from as int) == events_close_from(s@, k as int),
        decreases n - k,
    {
        match next_event_end(s, k) {
            None => {
                return false;
            },
            Some(next) => {
                k = next;
            },
        }
    }
    true
}

/// The start of the first dictionary-closing event of the document, as
/// `scan_from` describes it from position `0`.
pub fn scan_dict_close(s: &str) -> (r: Result<usize, PlistError>)
    ensures
        match r {
            Ok(i) => scan_from(s@, 0) == (ScanResult::Found { at: i as int }) && i + 7 <= s@.len(),
            Err(PlistError::MissingDictionary) => scan_from(s@, 0) == ScanResult::NoDictionary,
            Err(PlistError::Unparsable) => scan_from(s@, 0) == ScanResult::Malformed,
        },
{
    let n = s.unicode_len();
    let mut i: usize = 0;
    while i < n
        invariant
            0 <= i <= n,
            n == s@.len(),
            scan_from(s@, 0) == scan_from(s@, i as int),
        decreases n - i,
    {
        match next_event_end(s, i) {
            None => {
                return Err(PlistError::Unparsable);
            },
            Some(j) => {
                if check_dict_close(s, i, j) {
                    if check_events_close(s, j) {
                        return Ok(i);
                    }
                    return Err(PlistError::Unparsable);
                }
                i = j;
            },
        }
    }
    Err(PlistError::MissingDictionary)
}

/// A found position lies at or after where the scan started, and leaves room
/// for the closing tag itself.
pub proof fn lemma_scan_found_range(s: Seq<char>, i: int, at: int)
    requires
        scan_from(s, i) == (ScanResult::Found { at }),
    ensures
        i <= at,
        at + 7 <= s.len(),
    decreases s.len() - i,
{
    if i < 0 || i >= s.len() {
        assert(false);
    } else {
        match event_end(s, i) {
            None => {
                assert(false);
            },
            Some(j) => {
                if is_dict_close(s, i, j) {
                } else if j <= i || j > s.len() {
                    assert(false);
                } else {
                    lemma_scan_found_range(s, j, at);
                }
            },
        }
    }
}

/// The rewrite inserts the fragment at the found position and changes
/// nothing else: the output carries the fragment there, carries the input's
/// characters on both sides of it, and removing that exact span restores the
/// input.
pub proof fn lemma_rewrite_restores_input(s: Seq<char>, at: int)
    requires
        scan_from(s, 0) == (ScanResult::Found { at }),
    ensures
        0 <= at && at + 7 <= s.len(),
        rewritten(s).len() == s.len() + fragment_view().len(),
        occurs_at(rewritten(s), fragment_view(), at),
        rewritten(s).subrange(0, at) == s.subrange(0, at),
        rewritten(s).subrange(at + fragment_view().len() as int, rewritten(s).len() as int)
            == s.subrange(at, s.len() as int),
        rewritten(s).subrange(0, at) + rewritten(s).subrange(
            at + fragment_view().len() as int,
            rewritten(s).len() as int,
        ) == s,
{
    lemma_scan_found_range(s, 0, at);
    let f = fragment_view();
    let out = rewritten(s);
    assert(out.subrange(at, at + f.len() as int) =~= f);
    assert(out.subrange(0, at) =~= s.subrange(0, at));
    assert(out.subrange(at + f.len() as int, out.len() as int) =~= s.subrange(at, s.len() as int));
    assert(s.subrange(0, at) + s.subrange(at, s.len() as int) =~= s);
}

/// The position the scan finds really starts a dictionary-closing event.
pub proof fn lemma_scan_found_is_dict_close(s: Seq<char>, i: int, at: int)
    requires
        scan_from(s, i) == (ScanResult::Found { at }),
    ensures
        exists|j: int| is_dict_close(s, at, j),
    decreases s.len() - i,
{
    if i < 0 || i >= s.len() {
        assert(false);
    } else {
        match event_end(s, i) {
            None => {
                assert(false);
            },
            Some(j) => {
                if is_dict_close(s, i, j) {
                    assert(is_dict_close(s, at, j));
                } else if j <= i || j > s.len() {
                    assert(false);
                } else {
                    lemma_scan_found_is_dict_close(s, j, at);
                }
            },
        }
    }
}

/// In the rewritten document a dictionary-closing event stands directly
/// after the inserted fragment: the fragment sits immediately before the
/// dictionary close the scan found.
pub proof fn lemma_fragment_sits_before_dict_close(s: Seq<char>, at: int)
    requires
        scan_from(s, 0) == (ScanResult::Found { at }),
    ensures
        exists|j: int|
            is_dict_close(s, at, j) && is_dict_close(
                rewritten(s),
                at + fragment_view().len(),
                j + fragment_view().len(),
            ),
{
    lemma_rewrite_restores_input(s, at);
    lemma_scan_found_is_dict_close(s, 0, at);
    let j = choose|j: int| is_dict_close(s, at, j);
    let f = fragment_view().len() as int;
    let out = rewritten(s);
    assert(out.subrange(at + f, out.len() as int) == s.subrange(at, s.len() as int));
    assert(forall|k: int|
        at <= k < s.len() ==> out[k + f] == #[trigger] s[k]) by {
        assert forall|k: int| at <= k < s.len() implies out[k + f] == #[trigger] s[k] by {
            assert(s[k] == s.subrange(at, s.len() as int)[k - at]);
            assert(out[k + f] == out.subrange(at + f, out.len() as int)[k - at]);
        }
    }
    let pat = "</dict"@;
    assert(out.subrange(at + f, at + f + pat.len() as int) =~= pat) by {
        assert(forall|k: int|
            0 <= k < pat.len() ==> s.subrange(at, at + pat.len() as int)[k] == #[trigger] pat[k]);
    }
    assert(out[j + f - 1] == s[j - 1]);
    assert(forall|k: int| at + f + 6 <= k < j + f - 1 ==> xml_ws(#[trigger] out[k])) by {
        assert forall|k: int| at + f + 6 <= k < j + f - 1 implies xml_ws(#[trigger] out[k]) by {
            assert(out[k] == s[k - f]);
            assert(xml_ws(s[k - f]));
        }
    }
    assert(is_dict_close(out, at + f, j + f));
}

/// How often `pat` occurs in `s` at or after position `from`.
pub open spec fn count_from(s: Seq<char>, pat: Seq<char>, from: int) -> nat
    decreases s.len() - from + 1,
{
    if from + pat.len() > s.len() {
        0
    } else {
        (if occurs_at(s, pat, from) {
            1nat
        } else {
            0nat
        }) + count_from(s, pat, from + 1)
    }
}

/// How often `pat` occurs in `s`.
pub open spec fn occurrence_count(s: Seq<char>, pat: Seq<char>) -> nat {
    count_from(s, pat, 0)
}

proof fn lemma_count_from_single(s: Seq<char>, pat: Seq<char>, at: int, from: int)
    requires
        occurs_at(s, pat, at),
        forall|k: int| k != at ==> !occurs_at(s, pat, k),
    ensures
        count_from(s, pat, from) == if from <= at {
            1nat
        } else {
            0nat
        },
    decreases s.len() - from + 1,
{
    if from + pat.len() > s.len() {
        assert(at + pat.len() <= s.len());
    } else {
        lemma_count_from_single(s, pat, at, from + 1);
    }
}

/// A document that holds `pat` at position `at` and nowhere else holds it
/// exactly once.
pub proof fn lemma_single_occurrence(s: Seq<char>, pat: Seq<char>, at: int)
    requires
        occurs_at(s, pat, at),
        forall|k: int| k != at ==> !occurs_at(s, pat, k),
    ensures
        occurrence_count(s, pat) == 1,
{
    lemma_count_from_single(s, pat, at, 0);
}

/// The rewritten document holds exactly one copy of the fragment, provided
/// no second copy stands elsewhere in it.  (A second copy can stand there:
/// for instance when the input document already carried the fragment, as
/// after a rewrite of a bundle that was never removed.)
pub proof fn lemma_fragment_exactly_once(s: Seq<char>, at: int)
    requires
        scan_from(s, 0) == (ScanResult::Found { at }),
        forall|k: int| k != at ==> !occurs_at(rewritten(s), fragment_view(), k),
    ensures
        occurrence_count(rewritten(s), fragment_view()) == 1,
{
    lemma_rewrite_restores_input(s, at);
    lemma_single_occurrence(rewritten(s), fragment_view(), at);
}

} // verus!
