//! Line search over a text: the lines of a text that contain a query.
use vstd::prelude::*;
use vstd::utf8::is_ascii_chars;

verus! {

// ---------------------------------------------------------------------
// Lines and substrings
// ---------------------------------------------------------------------

/// Index of the first `'\n'` in `s`, or `s.len()` when there is none.
pub open spec fn newline_index(s: Seq<char>) -> nat
    decreases s.len(),
{
    if s.len() == 0 {
        0
    } else if s[0] == '\n' {
        0
    } else {
        1 + newline_index(s.drop_first())
    }
}

/// `l` without one trailing `'\r'`.
pub open spec fn strip_cr(l: Seq<char>) -> Seq<char> {
    if l.len() > 0 && l.last() == '\r' {
        l.drop_last()
    } else {
        l
    }
}

/// The lines of `s`: it is cut after each `'\n'`; each line loses its
/// `'\n'` and a `'\r'` just before it; a final line ending is optional, so a
/// text that ends with one has no empty last line.
pub open spec fn spec_lines(s: Seq<char>) -> Seq<Seq<char>>
    decreases s.len(),
{
    if s.len() == 0 {
        seq![]
    } else {
        let k = newline_index(s);
        if k < s.len() {
            seq![strip_cr(s.take(k as int))] + spec_lines(s.skip(k + 1int))
        } else {
            seq![s]
        }
    }
}

/// `needle` occurs in `haystack` at some position.
pub open spec fn seq_contains(haystack: Seq<char>, needle: Seq<char>) -> bool {
    exists|i: int|
        0 <= i && i + needle.len() <= haystack.len() && #[trigger] haystack.subrange(
            i,
            i + needle.len(),
        ) == needle
}

/// What `str::to_lowercase` gives for a string: the Unicode lowercase
/// mapping of each character, with the special rule for a final sigma.
pub uninterp spec fn lowercase(s: Seq<char>) -> Seq<char>;

/// Calls `str::lines`: the lines of `s`, as the standard library documents
/// them (split at `"\n"` or `"\r\n"`, terminators removed, the final
/// terminator optional).
#[verifier::external_body]
fn str_lines<'a>(s: &'a str) -> (r: Vec<&'a str>)
    ensures
        r@.map_values(|l: &str| l@) == spec_lines(s@),
{
    s.lines().collect()
}

/// Calls `str::contains` with a string pattern: whether `needle` occurs in
/// `haystack`.
#[verifier::external_body]
fn str_contains(haystack: &str, needle: &str) -> (r: bool)
    ensures
        r == seq_contains(haystack@, needle@),
{
    haystack.contains(needle)
}

/// `c` with an ASCII capital letter turned into its small letter; every
/// other character unchanged.
pub open spec fn ascii_lower_char(c: char) -> char {
    if 'A' <= c && c <= 'Z' {
        ((c as u32) + 32) as char
    } else {
        c
    }
}

/// `c` with an ASCII small letter turned into its capital letter; every
/// other character unchanged.
pub open spec fn ascii_upper_char(c: char) -> char {
    if 'a' <= c && c <= 'z' {
        ((c as u32) - 32) as char
    } else {
        c
    }
}

/// `s` with its ASCII letters made small (`str::to_ascii_lowercase`).
pub open spec fn ascii_lower(s: Seq<char>) -> Seq<char> {
    s.map_values(|c: char| ascii_lower_char(c))
}

/// `s` with its ASCII letters made capital (`str::to_ascii_uppercase`).
pub open spec fn ascii_upper(s: Seq<char>) -> Seq<char> {
    s.map_values(|c: char| ascii_upper_char(c))
}

/// Calls `str::to_lowercase`; its result is named [`lowercase`].  On a
/// string of ASCII characters the Unicode lowercase mapping it applies turns
/// `A`..=`Z` into `a`..=`z` and leaves every other character as it is (the
/// mapping of `str::to_ascii_lowercase`).
#[verifier::external_body]
fn str_to_lowercase(s: &str) -> (r: String)
    ensures
        r@ == lowercase(s@),
        is_ascii_chars(s@) ==> r@ == ascii_lower(s@),
{
    s.to_lowercase()
}

// ---------------------------------------------------------------------
// Search
// ---------------------------------------------------------------------

/// Whether `line` is kept by a search for `query`.  With the flag set the
/// line must contain the query as it is; with the flag clear both are
/// lowercased first.
pub open spec fn line_matches(line: Seq<char>, query: Seq<char>, case_insensitive: bool) -> bool {
    if case_insensitive {
        seq_contains(line, query)
    } else {
        seq_contains(lowercase(line), lowercase(query))
    }
}

/// The test a search for `query` applies to each line.
pub open spec fn match_pred(query: Seq<char>, case_insensitive: bool) -> spec_fn(Seq<char>) -> bool {
    |line: Seq<char>| line_matches(line, query, case_insensitive)
}

/// The test a lowercasing search applies to each line when the line and
/// the query are ASCII: the query, lowercased, occurs in the line,
/// lowercased.
pub open spec fn folded_pred(query: Seq<char>) -> spec_fn(Seq<char>) -> bool {
    |line: Seq<char>| seq_contains(ascii_lower(line), ascii_lower(query))
}

/// The test a lowercasing search applies to each line when the query is
/// ASCII: the query, lowercased, occurs in the line, lowercased.
pub open spec fn ascii_query_pred(query: Seq<char>) -> spec_fn(Seq<char>) -> bool {
    |line: Seq<char>| seq_contains(lowercase(line), ascii_lower(query))
}

/// The lines of `contents` that a lowercasing search for the ASCII query
/// `query` keeps, in order.
pub open spec fn spec_search_ascii_query(contents: Seq<char>, query: Seq<char>) -> Seq<Seq<char>> {
    spec_lines(contents).filter(ascii_query_pred(query))
}

/// The lines of `contents` that contain `query` up to the letter case of
/// ASCII letters, in order.
pub open spec fn spec_search_folded(contents: Seq<char>, query: Seq<char>) -> Seq<Seq<char>> {
    spec_lines(contents).filter(folded_pred(query))
}

/// Every line of an ASCII text is ASCII.
proof fn lemma_lines_of_ascii_are_ascii(s: Seq<char>)
    requires
        is_ascii_chars(s),
    ensures
        forall|i: int| 0 <= i < spec_lines(s).len() ==> is_ascii_chars(#[trigger] spec_lines(s)[i]),
    decreases s.len(),
{
    if s.len() > 0 {
        let k = newline_index(s);
        if k < s.len() {
            let rest = s.skip(k + 1int);
            assert forall|j: int| 0 <= j < rest.len() implies '\0' <= #[trigger] rest[j] <= '\u{7f}' by {
                assert(rest[j] == s[j + k + 1]);
            }
            lemma_lines_of_ascii_are_ascii(rest);
            let line = strip_cr(s.take(k as int));
            assert forall|j: int| 0 <= j < line.len() implies '\0' <= #[trigger] line[j] <= '\u{7f}' by {
                assert(line[j] == s[j]);
            }
            assert forall|i: int| 0 <= i < spec_lines(s).len() implies is_ascii_chars(
                #[trigger] spec_lines(s)[i],
            ) by {
                if i > 0 {
                    assert(spec_lines(s)[i] == spec_lines(rest)[i - 1]);
                } else {
                    assert(spec_lines(s)[i] == line);
                }
            }
        }
    }
}

/// The lines of `contents` that a search for `query` keeps, in order.
pub open spec fn spec_search(contents: Seq<char>, query: Seq<char>, case_insensitive: bool) -> Seq<
    Seq<char>,
> {
    spec_lines(contents).filter(match_pred(query, case_insensitive))
}

/// The lines of `contents` that contain `query_str`, in the order of the
/// text.  With `case_insensitive` set the comparison is exact; with it
/// clear both the line and the query are lowercased before comparing; for
/// an ASCII query the lowercased query is its ASCII lowercase form, and on
/// ASCII text and query that keeps the lines containing the query up to
/// the letter case of ASCII letters.
pub fn search<'a>(contents: &'a str, query_str: &str, case_insensitive: bool) -> (r: Vec<&'a str>)
    ensures
        r@.map_values(|l: &str| l@) == spec_search(contents@, query_str@, case_insensitive),
        !case_insensitive && is_ascii_chars(query_str@) ==> r@.map_values(|l: &str| l@)
            == spec_search_ascii_query(contents@, query_str@),
        !case_insensitive && is_ascii_chars(contents@) && is_ascii_chars(query_str@) ==> r@.map_values(
            |l: &str| l@,
        ) == spec_search_folded(contents@, query_str@),
{
    let lines = str_lines(contents);
    let ghost all = spec_lines(contents@);
    let ghost pred = match_pred(query_str@, case_insensitive);
    let ghost fpred = folded_pred(query_str@);
    let ghost ascii = !case_insensitive && is_ascii_chars(contents@) && is_ascii_chars(query_str@);
    let ghost qpred = ascii_query_pred(query_str@);
    let ghost ascii_query = !case_insensitive && is_ascii_chars(query_str@);
    proof {
        if ascii {
            lemma_lines_of_ascii_are_ascii(contents@);
        }
    }
    let mut result: Vec<&'a str> = Vec::new();
    let mut i: usize = 0;
    while i < lines.len()
        invariant
            i <= lines.len(),
            lines@.map_values(|l: &str| l@) == all,
            all == spec_lines(contents@),
            pred == match_pred(query_str@, case_insensitive),
            result@.map_values(|l: &str| l@) == all.take(i as int).filter(pred),
            fpred == folded_pred(query_str@),
            ascii == (!case_insensitive && is_ascii_chars(contents@) && is_ascii_chars(query_str@)),
            ascii ==> forall|j: int| 0 <= j < all.len() ==> is_ascii_chars(#[trigger] all[j]),
            ascii ==> result@.map_values(|l: &str| l@) == all.take(i as int).filter(fpred),
            qpred == ascii_query_pred(query_str@),
            ascii_query == (!case_insensitive && is_ascii_chars(query_str@)),
            ascii_query ==> result@.map_values(|l: &str| l@) == all.take(i as int).filter(qpred),
        decreases lines.len() - i,
    {
        let line: &'a str = lines[i];
        let ghost before = result@;
        let keep = if case_insensitive {
            str_contains(line, query_str)
        } else {
            let lower_line = str_to_lowercase(line);
            let lower_query = str_to_lowercase(query_str);
            let k = str_contains(lower_line.as_str(), lower_query.as_str());
            proof {
                if ascii {
                    assert(all[i as int] == line@);
                    assert(k == fpred(line@));
                }
                if ascii_query {
                    assert(k == qpred(line@));
                }
            }
            k
        };
        if keep {
            result.push(line);
        }
        proof {
            assert(all[i as int] == line@);
            assert(all.take(i + 1).drop_last() =~= all.take(i as int));
            assert(all.take(i + 1).last() == line@);
            reveal_with_fuel(Seq::<_>::filter, 1);
            assert(keep == pred(line@));
            if ascii {
                assert(keep == fpred(line@));
            }
            if ascii_query {
                assert(keep == qpred(line@));
            }
            if keep {
                assert(result@.map_values(|l: &str| l@) =~= before.map_values(|l: &str| l@).push(
                    line@,
                ));
            } else {
                assert(result@ == before);
            }
        }
        i += 1;
    }
    proof {
        assert(all.take(i as int) =~= all);
    }
    result
}

// ---------------------------------------------------------------------
// Laws
// ---------------------------------------------------------------------

/// Every element of a filtered sequence comes from the sequence.
proof fn lemma_filter_from_source<A>(s: Seq<A>, pred: spec_fn(A) -> bool)
    ensures
        forall|i: int|
            0 <= i < s.filter(pred).len() ==> s.contains(#[trigger] s.filter(pred)[i]),
    decreases s.len(),
{
    reveal(Seq::filter);
    if s.len() > 0 {
        let rest = s.drop_last();
        lemma_filter_from_source(rest, pred);
        let sub = rest.filter(pred);
        assert forall|i: int| 0 <= i < s.filter(pred).len() implies s.contains(
            #[trigger] s.filter(pred)[i],
        ) by {
            if i < sub.len() {
                assert(s.filter(pred)[i] == sub[i]);
                assert(rest.contains(sub[i]));
                let j = choose|j: int| 0 <= j < rest.len() && rest[j] == sub[i];
                assert(s[j] == sub[i]);
            } else {
                assert(s.filter(pred)[i] == s[s.len() - 1]);
            }
        }
    }
}

/// Filtering with a test that every element passes changes nothing.
proof fn lemma_filter_keeps_all<A>(s: Seq<A>, pred: spec_fn(A) -> bool)
    requires
        forall|i: int| 0 <= i < s.len() ==> #[trigger] pred(s[i]),
    ensures
        s.filter(pred) == s,
    decreases s.len(),
{
    reveal(Seq::filter);
    if s.len() > 0 {
        let rest = s.drop_last();
        assert forall|i: int| 0 <= i < rest.len() implies #[trigger] pred(rest[i]) by {
            assert(rest[i] == s[i]);
        }
        lemma_filter_keeps_all(rest, pred);
        assert(pred(s[s.len() - 1]));
        assert(rest.push(s.last()) =~= s);
    }
}

/// A search keeps exactly the lines that match: each line it returns is a
/// line of the text and matches the query, and each line of the text that
/// matches is among those returned.
pub proof fn law_search_keeps_exactly_matching_lines(
    contents: Seq<char>,
    query: Seq<char>,
    case_insensitive: bool,
)
    ensures
        forall|i: int|
            0 <= i < spec_search(contents, query, case_insensitive).len() ==> {
                let line = #[trigger] spec_search(contents, query, case_insensitive)[i];
                spec_lines(contents).contains(line) && line_matches(line, query, case_insensitive)
            },
        forall|i: int|
            0 <= i < spec_lines(contents).len() && line_matches(
                #[trigger] spec_lines(contents)[i],
                query,
                case_insensitive,
            ) ==> spec_search(contents, query, case_insensitive).contains(spec_lines(contents)[i]),
        spec_search(contents, query, case_insensitive).len() <= spec_lines(contents).len(),
{
    broadcast use vstd::seq_lib::group_filter_ensures;

    let lines = spec_lines(contents);
    let pred = match_pred(query, case_insensitive);
    lemma_filter_from_source(lines, pred);
    assert forall|i: int| 0 <= i < lines.len() && line_matches(#[trigger] lines[i], query, case_insensitive)
        implies lines.filter(pred).contains(lines[i]) by {
        assert(pred(lines[i]));
    }
    assert forall|i: int| 0 <= i < lines.filter(pred).len() implies line_matches(
        #[trigger] lines.filter(pred)[i],
        query,
        case_insensitive,
    ) by {
        assert(pred(lines.filter(pred)[i]));
    }
}

/// An empty query, compared exactly, keeps every line of the text.
pub proof fn law_empty_exact_query_keeps_every_line(contents: Seq<char>)
    ensures
        spec_search(contents, Seq::<char>::empty(), true) == spec_lines(contents),
{
    let lines = spec_lines(contents);
    let pred = match_pred(Seq::<char>::empty(), true);
    assert forall|i: int| 0 <= i < lines.len() implies #[trigger] pred(lines[i]) by {
        let empty = Seq::<char>::empty();
        assert(lines[i].subrange(0, 0int + empty.len()) =~= empty);
        assert(seq_contains(lines[i], empty));
    }
    lemma_filter_keeps_all(lines, pred);
}

/// An occurrence of an occurrence is an occurrence: when `inner` occurs in
/// `middle` and `middle` occurs in `outer`, `inner` occurs in `outer`.
proof fn lemma_contains_transitive(outer: Seq<char>, middle: Seq<char>, inner: Seq<char>)
    requires
        seq_contains(outer, middle),
        seq_contains(middle, inner),
    ensures
        seq_contains(outer, inner),
{
    let j = choose|j: int|
        0 <= j && j + middle.len() <= outer.len() && #[trigger] outer.subrange(
            j,
            j + middle.len(),
        ) == middle;
    let i = choose|i: int|
        0 <= i && i + inner.len() <= middle.len() && #[trigger] middle.subrange(
            i,
            i + inner.len(),
        ) == inner;
    assert forall|k: int| 0 <= k < inner.len() implies outer.subrange(
        j + i,
        j + i + inner.len(),
    )[k] == inner[k] by {
        assert(inner[k] == middle.subrange(i, i + inner.len())[k]);
        assert(middle[i + k] == outer.subrange(j, j + middle.len())[i + k]);
    }
    assert(outer.subrange(j + i, j + i + inner.len()) =~= inner);
}

/// Filtering with a stronger test is filtering twice: first with the
/// weaker test, then with the stronger one.
proof fn lemma_filter_stronger<A>(s: Seq<A>, weak: spec_fn(A) -> bool, strong: spec_fn(A) -> bool)
    requires
        forall|x: A| #[trigger] strong(x) ==> weak(x),
    ensures
        s.filter(strong) == s.filter(weak).filter(strong),
    decreases s.len(),
{
    reveal(Seq::filter);
    if s.len() > 0 {
        let rest = s.drop_last();
        let x = s.last();
        lemma_filter_stronger(rest, weak, strong);
        if weak(x) {
            let w = rest.filter(weak).push(x);
            assert(w.drop_last() =~= rest.filter(weak));
            assert(w.last() == x);
        }
    }
}

/// A longer query keeps fewer lines: when `shorter` occurs in `longer`, an
/// exact search for `longer` keeps exactly those lines of an exact search
/// for `shorter` that contain `longer`, in the same order.  So its result
/// is a subsequence of the shorter query's result (and, by
/// [`law_empty_exact_query_keeps_every_line`], of the text's lines).
pub proof fn law_longer_exact_query_keeps_a_subsequence(
    contents: Seq<char>,
    shorter: Seq<char>,
    longer: Seq<char>,
)
    requires
        seq_contains(longer, shorter),
    ensures
        spec_search(contents, longer, true) == spec_search(contents, shorter, true).filter(
            match_pred(longer, true),
        ),
{
    let weak = match_pred(shorter, true);
    let strong = match_pred(longer, true);
    assert forall|x: Seq<char>| #[trigger] strong(x) implies weak(x) by {
        lemma_contains_transitive(x, longer, shorter);
    }
    lemma_filter_stronger(spec_lines(contents), weak, strong);
}

/// Making ASCII letters small after making them capital, or twice, is the
/// same as making them small once.
proof fn lemma_ascii_lower_absorbs(q: Seq<char>)
    ensures
        ascii_lower(ascii_upper(q)) == ascii_lower(q),
        ascii_lower(ascii_lower(q)) == ascii_lower(q),
        is_ascii_chars(q) ==> is_ascii_chars(ascii_upper(q)) && is_ascii_chars(ascii_lower(q)),
{
    assert forall|i: int| 0 <= i < q.len() implies ascii_lower_char(ascii_upper_char(q[i]))
        == ascii_lower_char(q[i]) && ascii_lower_char(ascii_lower_char(q[i])) == ascii_lower_char(
        q[i],
    ) by {
        let c = q[i];
        if 'a' <= c && c <= 'z' {
            let u = ((c as u32) - 32) as char;
            assert(u as u32 == (c as u32) - 32);
            assert('A' <= u && u <= 'Z');
            assert(((u as u32) + 32) as char == c);
        }
        if 'A' <= c && c <= 'Z' {
            let l = ((c as u32) + 32) as char;
            assert(l as u32 == (c as u32) + 32);
            assert(!('A' <= l && l <= 'Z'));
        }
    }
    assert(ascii_lower(ascii_upper(q)) =~= ascii_lower(q));
    assert(ascii_lower(ascii_lower(q)) =~= ascii_lower(q));
    if is_ascii_chars(q) {
        assert forall|i: int| 0 <= i < ascii_upper(q).len() implies '\0' <= #[trigger] ascii_upper(
            q,
        )[i] <= '\u{7f}' by {
            let c = q[i];
            if 'a' <= c && c <= 'z' {
                assert((((c as u32) - 32) as char) as u32 == (c as u32) - 32);
            }
        }
        assert forall|i: int| 0 <= i < ascii_lower(q).len() implies '\0' <= #[trigger] ascii_lower(
            q,
        )[i] <= '\u{7f}' by {
            let c = q[i];
            if 'A' <= c && c <= 'Z' {
                assert((((c as u32) + 32) as char) as u32 == (c as u32) + 32);
            }
        }
    }
}

/// With the flag clear, the letter case of an ASCII query does not matter:
/// on any text, searching for the query, for its capital form
/// (`to_ascii_uppercase`) or for its small form (`to_ascii_lowercase`)
/// keeps the same lines.  All three queries are ASCII, so [`search`]'s
/// contract gives [`spec_search_ascii_query`] for each of them; on ASCII
/// text the same holds of [`spec_search_folded`].
pub proof fn law_lowercasing_search_ignores_query_case(contents: Seq<char>, query: Seq<char>)
    ensures
        spec_search_ascii_query(contents, ascii_upper(query)) == spec_search_ascii_query(
            contents,
            query,
        ),
        spec_search_ascii_query(contents, ascii_lower(query)) == spec_search_ascii_query(
            contents,
            query,
        ),
        spec_search_folded(contents, ascii_upper(query)) == spec_search_folded(contents, query),
        spec_search_folded(contents, ascii_lower(query)) == spec_search_folded(contents, query),
        is_ascii_chars(query) ==> is_ascii_chars(ascii_upper(query)) && is_ascii_chars(
            ascii_lower(query),
        ),
{
    lemma_ascii_lower_absorbs(query);
    assert(ascii_query_pred(ascii_upper(query)) =~= ascii_query_pred(query));
    assert(ascii_query_pred(ascii_lower(query)) =~= ascii_query_pred(query));
    assert(folded_pred(ascii_upper(query)) =~= folded_pred(query));
    assert(folded_pred(ascii_lower(query)) =~= folded_pred(query));
}

/// Lowercasing keeps an occurrence: when `needle` occurs in `haystack`, its
/// small form occurs in the small form of `haystack`.
proof fn lemma_contains_ascii_lower(haystack: Seq<char>, needle: Seq<char>)
    requires
        seq_contains(haystack, needle),
    ensures
        seq_contains(ascii_lower(haystack), ascii_lower(needle)),
{
    let i = choose|i: int|
        0 <= i && i + needle.len() <= haystack.len() && #[trigger] haystack.subrange(
            i,
            i + needle.len(),
        ) == needle;
    let lh = ascii_lower(haystack);
    let ln = ascii_lower(needle);
    assert forall|k: int| 0 <= k < ln.len() implies lh.subrange(i, i + ln.len())[k] == ln[k] by {
        assert(needle[k] == haystack.subrange(i, i + needle.len())[k]);
    }
    assert(lh.subrange(i, i + ln.len()) =~= ln);
}

/// Every line an exact search keeps, a lowercasing search keeps too: on
/// ASCII text and query, the exact search's lines are exactly those lines
/// of the lowercasing search that contain the query as it is, in the same
/// order, so they form a subsequence of them.
pub proof fn law_exact_search_within_lowercasing_search(contents: Seq<char>, query: Seq<char>)
    ensures
        spec_search(contents, query, true) == spec_search_folded(contents, query).filter(
            match_pred(query, true),
        ),
{
    let weak = folded_pred(query);
    let strong = match_pred(query, true);
    assert forall|x: Seq<char>| #[trigger] strong(x) implies weak(x) by {
        lemma_contains_ascii_lower(x, query);
    }
    lemma_filter_stronger(spec_lines(contents), weak, strong);
}

// ---------------------------------------------------------------------
// Configuration
// ---------------------------------------------------------------------

/// What a search run is asked to do: which file, which query, and whether
/// to compare exactly (see [`search`]).
pub struct Config {
    filename: String,
    query_str: String,
    case_insensitive: bool,
}

impl Config {
    /// The name of the file to search.
    pub closed spec fn spec_filename(&self) -> Seq<char> {
        self.filename@
    }

    /// The query to search for.
    pub closed spec fn spec_query_str(&self) -> Seq<char> {
        self.query_str@
    }

    /// The flag handed to [`search`].
    pub closed spec fn spec_case_insensitive(&self) -> bool {
        self.case_insensitive
    }

    /// A configuration from the program's arguments: `args[1]` is the
    /// query and `args[2]` the file name (`args[0]` is the program).  Fewer
    /// than three arguments are refused.  `case_insensitive` is the flag
    /// handed to [`search`]; the program sets it when the environment
    /// variable `CASE_INSENSITIVE` is unset.
    pub fn new(args: &[String], case_insensitive: bool) -> (r: Result<Config, &'static str>)
        ensures
            r is Err <==> args@.len() < 3,
            r matches Err(e) ==> e@ == "invalid program params"@,
            r matches Ok(c) ==> {
                &&& c.spec_query_str() == args@[1]@
                &&& c.spec_filename() == args@[2]@
                &&& c.spec_case_insensitive() == case_insensitive
            },
    {
        if args.len() < 3 {
            return Err("invalid program params");
        }
        let query_str = args[1].clone();
        let filename = args[2].clone();
        Ok(Config { filename, query_str, case_insensitive })
    }

    /// The name of the file to search.
    pub fn filename(&self) -> (r: &str)
        ensures
            r@ == self.spec_filename(),
    {
        self.filename.as_str()
    }

    /// The query to search for.
    pub fn query_str(&self) -> (r: &str)
        ensures
            r@ == self.spec_query_str(),
    {
        self.query_str.as_str()
    }

    /// The flag handed to [`search`].
    pub fn case_insensitive(&self) -> (r: bool)
        ensures
            r == self.spec_case_insensitive(),
    {
        self.case_insensitive
    }
}

} // verus!
