use vstd::prelude::*;
use crate::protocol::{PageContent, RiskReport};
use crate::text::{contains_seq, str_contains};

verus! {

/// `str::to_lowercase`: the Unicode lowercase mapping of a string.
pub uninterp spec fn unicode_lowercase(s: Seq<char>) -> Seq<char>;

/// Every word of ASCII lowercase letters that occurs in `lowered_piece`
/// also occurs in `lowered_whole`.
pub open spec fn keeps_ascii_words(lowered_piece: Seq<char>, lowered_whole: Seq<char>) -> bool {
    forall|w: Seq<char>| is_plain_word(w) && #[trigger] contains_seq(lowered_piece, w) ==> contains_seq(lowered_whole, w)
}

/// `str::to_lowercase` (std): its result is the named Unicode lowercase
/// mapping of the argument. That mapping replaces each character by its
/// own lowercase mapping; the one mapping that depends on the neighbouring
/// characters is that of the capital sigma, whose results (σ, ς) are not
/// ASCII. So a word of ASCII lowercase letters in the lowercase form of a
/// piece of the string also stands in the lowercase form of the whole.
#[verifier::external_body]
fn to_lowercase(s: &str) -> (r: String)
    ensures
        r@ == unicode_lowercase(s@),
        forall|pre: Seq<char>, piece: Seq<char>, post: Seq<char>| #![trigger pre + piece + post]
            s@ == pre + piece + post ==> keeps_ascii_words(unicode_lowercase(piece), r@),
{
    s.to_lowercase()
}

/// A word made of ASCII lowercase letters only: as a regular expression it
/// matches itself and nothing else.
pub open spec fn is_plain_word(w: Seq<char>) -> bool {
    &&& 0 < w.len() <= 64
    &&& forall|k: int| 0 <= k < w.len() ==> 'a' <= #[trigger] w[k] <= 'z'
}

/// Some word of `words` occurs in `hay`.
pub open spec fn matches_any_word(words: Seq<Seq<char>>, hay: Seq<char>) -> bool {
    exists|k: int| 0 <= k < words.len() && contains_seq(hay, #[trigger] words[k])
}

/// `regex::Regex::new` on the alternation `w1|w2|...` of plain words,
/// followed by `Regex::is_match`. Such a pattern always compiles, and by
/// the crate's documented semantics it matches exactly the haystacks in
/// which one of the words occurs.
#[verifier::external_body]
fn regex_alternation_is_match(words: &[&str], haystack: &str) -> (r: bool)
    requires
        0 < words@.len() <= 16,
        forall|k: int| 0 <= k < words@.len() ==> is_plain_word(#[trigger] words@[k]@),
    ensures
        r == matches_any_word(words@.map_values(|w: &str| w@), haystack@),
{
    regex::Regex::new(&words.join("|")).map(|re| re.is_match(haystack)).unwrap_or(false)
}

/// The words whose presence marks a page as asking for credentials.
pub open spec fn auth_words() -> Seq<Seq<char>> {
    seq![
        seq!['l', 'o', 'g', 'i', 'n'],
        seq!['p', 'a', 's', 's', 'w', 'o', 'r', 'd'],
        seq!['s', 'i', 'g', 'n', 'i', 'n'],
        seq!['a', 'c', 'c', 'o', 'u', 'n', 't'],
    ]
}

/// The words whose presence marks a page as using scare tactics.
pub open spec fn urgency_words() -> Seq<Seq<char>> {
    seq![
        seq!['u', 'r', 'g', 'e', 'n', 't'],
        seq!['v', 'e', 'r', 'i', 'f', 'y'],
        seq!['l', 'o', 'c', 'k', 'e', 'd'],
        seq!['s', 'u', 's', 'p', 'e', 'n', 'd', 'e', 'd'],
    ]
}

/// The four signals a page is examined for.
#[derive(Debug, Clone, Copy, PartialEq, Eq, Structural)]
pub struct RiskSignals {
    pub auth_keywords: bool,
    pub urgency_markers: bool,
    pub password_form: bool,
    pub external_resources: bool,
}

/// The page holds a form with a password input.
pub open spec fn has_password_form(html: Seq<char>) -> bool {
    contains_seq(html, "<form"@) && (contains_seq(html, "type=\"password\""@) || contains_seq(
        html,
        "type='password'"@,
    ))
}

/// The page loads a resource from an absolute http(s) URL.
pub open spec fn has_external_resources(html: Seq<char>) -> bool {
    contains_seq(html, "src=\"http"@) || contains_seq(html, "src='http"@)
}

/// The signals of a page, given the page and its lowercase form (in which
/// the keyword lists are looked for).
pub open spec fn signals_of(html: Seq<char>, lowered: Seq<char>) -> RiskSignals {
    RiskSignals {
        auth_keywords: matches_any_word(auth_words(), lowered),
        urgency_markers: matches_any_word(urgency_words(), lowered),
        password_form: has_password_form(html),
        external_resources: has_external_resources(html),
    }
}

/// Weights, in tenths: credentials 2, urgency 1, password form 4,
/// external resources 3. They sum to at most 10.
pub open spec fn score_of(s: RiskSignals) -> nat {
    (if s.auth_keywords { 2nat } else { 0nat }) + (if s.urgency_markers { 1nat } else { 0nat })
        + (if s.password_form { 4nat } else { 0nat }) + (if s.external_resources { 3nat } else { 0nat })
}

pub open spec fn auth_finding() -> Seq<char> {
    "Contains authentication keywords"@
}

pub open spec fn urgency_finding() -> Seq<char> {
    "Contains urgency/scareword markers"@
}

pub open spec fn form_finding() -> Seq<char> {
    "Contains password input form"@
}

pub open spec fn external_finding() -> Seq<char> {
    "Loads external resources (potential tracking)"@
}

/// One finding per signal present, in the order credentials, urgency,
/// password form, external resources.
pub open spec fn findings_of(s: RiskSignals) -> Seq<Seq<char>> {
    (if s.auth_keywords { seq![auth_finding()] } else { seq![] }) + (if s.urgency_markers {
        seq![urgency_finding()]
    } else {
        seq![]
    }) + (if s.password_form { seq![form_finding()] } else { seq![] }) + (if s.external_resources {
        seq![external_finding()]
    } else {
        seq![]
    })
}

pub open spec fn critical_action() -> Seq<char> {
    "CRITICAL: Do not provide credentials. Page is highly suspicious."@
}

pub open spec fn warning_action() -> Seq<char> {
    "WARNING: Use caution. Inspect sources before interacting."@
}

pub open spec fn neutral_action() -> Seq<char> {
    "Neutral: No immediate threats detected."@
}

/// The recommendation for a score in tenths. The thresholds are "above 0.7"
/// and "above 0.3" on the single-precision sum of the weights; the sums that
/// reach seven tenths (0.2 + 0.1 + 0.4 and 0.4 + 0.3) round above 0.7, while
/// those of three tenths equal 0.3, so seven tenths is critical and three is
/// not a warning.
pub open spec fn action_for(score_tenths: nat) -> Seq<char> {
    if score_tenths >= 7 {
        critical_action()
    } else if score_tenths >= 4 {
        warning_action()
    } else {
        neutral_action()
    }
}

/// `r` is the report for the signals `s`.
pub open spec fn is_report_for(r: RiskReport, s: RiskSignals) -> bool {
    &&& r.score_tenths == score_of(s)
    &&& r.findings@.map_values(|f: String| f@) == findings_of(s)
    &&& r.recommended_action@ == action_for(score_of(s))
}

/// Explainable risk scoring of fetched pages.
pub struct RiskScorer;

impl RiskScorer {
    /// Analyzes a page: credential keywords and urgency markers (looked for
    /// in the page's lowercase form), password forms and external resources.
    /// A page is at least as risky as any piece of it: its report holds
    /// every finding of the piece's report, scores at least as high and is
    /// recommended at least as severely.
    pub fn analyze(content: &PageContent) -> (r: RiskReport)
        ensures
            is_report_for(r, signals_of(content.html@, unicode_lowercase(content.html@))),
            forall|pre: Seq<char>, piece: Seq<char>, post: Seq<char>| #![trigger pre + piece + post]
                content.html@ == pre + piece + post ==> report_covers(r, signals_of(piece, unicode_lowercase(piece))),
    {
        let lowered = to_lowercase(content.html.as_str());
        let r = RiskScorer::assess(content.html.as_str(), lowered.as_str());
        assert forall|pre: Seq<char>, piece: Seq<char>, post: Seq<char>| #![trigger pre + piece + post]
            content.html@ == pre + piece + post implies report_covers(r, signals_of(piece, unicode_lowercase(piece))) by {
            lemma_piece_signals_within(pre, piece, post, unicode_lowercase(piece), lowered@);
            lemma_findings_grow(signals_of(piece, unicode_lowercase(piece)), signals_of(content.html@, lowered@));
        }
        r
    }

    /// The report for a page `html` whose lowercase form is `lowered`.
    pub fn assess(html: &str, lowered: &str) -> (r: RiskReport)
        ensures
            is_report_for(r, signals_of(html@, lowered@)),
    {
        let s = RiskScorer::signals(html, lowered);
        RiskScorer::report_for(s)
    }

    /// The signals of a page `html` whose lowercase form is `lowered`.
    pub fn signals(html: &str, lowered: &str) -> (s: RiskSignals)
        ensures
            s == signals_of(html@, lowered@),
    {
        let auth: [&str; 4] = ["login", "password", "signin", "account"];
        let urgency: [&str; 4] = ["urgent", "verify", "locked", "suspended"];
        proof {
            reveal_strlit("login");
            reveal_strlit("password");
            reveal_strlit("signin");
            reveal_strlit("account");
            reveal_strlit("urgent");
            reveal_strlit("verify");
            reveal_strlit("locked");
            reveal_strlit("suspended");
            assert(auth@[0]@ =~= auth_words()[0]);
            assert(auth@[1]@ =~= auth_words()[1]);
            assert(auth@[2]@ =~= auth_words()[2]);
            assert(auth@[3]@ =~= auth_words()[3]);
            assert(urgency@[0]@ =~= urgency_words()[0]);
            assert(urgency@[1]@ =~= urgency_words()[1]);
            assert(urgency@[2]@ =~= urgency_words()[2]);
            assert(urgency@[3]@ =~= urgency_words()[3]);
            assert(auth@.map_values(|w: &str| w@) =~= auth_words());
            assert(urgency@.map_values(|w: &str| w@) =~= urgency_words());
        }
        let auth_keywords = regex_alternation_is_match(auth.as_slice(), lowered);
        let urgency_markers = regex_alternation_is_match(urgency.as_slice(), lowered);
        let password_form = str_contains(html, "<form") && (str_contains(html, "type=\"password\"")
            || str_contains(html, "type='password'"));
        let external_resources = str_contains(html, "src=\"http") || str_contains(html, "src='http");
        RiskSignals { auth_keywords, urgency_markers, password_form, external_resources }
    }

    /// The report for given signals: score in tenths, one finding per
    /// signal, and the recommendation for the score.
    pub fn report_for(s: RiskSignals) -> (r: RiskReport)
        ensures
            is_report_for(r, s),
            r.score_tenths <= 10,
    {
        let mut score: u32 = 0;
        let mut findings: Vec<String> = Vec::new();
        if s.auth_keywords {
            score = score + 2;
            findings.push("Contains authentication keywords".to_string());
        }
        if s.urgency_markers {
            score = score + 1;
            findings.push("Contains urgency/scareword markers".to_string());
        }
        if s.password_form {
            score = score + 4;
            findings.push("Contains password input form".to_string());
        }
        if s.external_resources {
            score = score + 3;
            findings.push("Loads external resources (potential tracking)".to_string());
        }
        let action = if score >= 7 {
            "CRITICAL: Do not provide credentials. Page is highly suspicious."
        } else if score >= 4 {
            "WARNING: Use caution. Inspect sources before interacting."
        } else {
            "Neutral: No immediate threats detected."
        };
        let r = RiskReport { score_tenths: score, findings, recommended_action: action.to_string() };
        assert(r.findings@.map_values(|f: String| f@) =~= findings_of(s));
        r
    }
}

/// How severe a recommendation is: 0 neutral, 1 warning, 2 critical.
pub open spec fn severity(score_tenths: nat) -> nat {
    if score_tenths >= 7 {
        2
    } else if score_tenths >= 4 {
        1
    } else {
        0
    }
}

/// The number of signals present.
pub open spec fn signal_count(s: RiskSignals) -> nat {
    (if s.auth_keywords { 1nat } else { 0nat }) + (if s.urgency_markers { 1nat } else { 0nat })
        + (if s.password_form { 1nat } else { 0nat }) + (if s.external_resources { 1nat } else { 0nat })
}

/// Every signal present adds to the score: one set of signals that holds
/// all the signals of another scores at least as high and is recommended
/// at least as severely. The score never exceeds 1.0 (ten tenths), and is 0
/// exactly when no signal is present.
pub proof fn law_score_is_monotone(weaker: RiskSignals, stronger: RiskSignals)
    requires
        weaker.auth_keywords ==> stronger.auth_keywords,
        weaker.urgency_markers ==> stronger.urgency_markers,
        weaker.password_form ==> stronger.password_form,
        weaker.external_resources ==> stronger.external_resources,
    ensures
        score_of(weaker) <= score_of(stronger),
        severity(score_of(weaker)) <= severity(score_of(stronger)),
        score_of(stronger) <= 10,
        score_of(weaker) == 0 <==> signal_count(weaker) == 0,
{
}

/// A report explains itself: it has one finding per signal present, and
/// its recommendation is the one for its score.
pub proof fn law_findings_explain_score(r: RiskReport, s: RiskSignals)
    requires
        is_report_for(r, s),
    ensures
        r.findings@.len() == signal_count(s),
        s.auth_keywords <==> r.findings@.map_values(|f: String| f@).contains(auth_finding()),
        s.password_form <==> r.findings@.map_values(|f: String| f@).contains(form_finding()),
        r.recommended_action@ == action_for(r.score_tenths as nat),
        severity(r.score_tenths as nat) == 2 <==> r.recommended_action@ == critical_action(),
{
    let f = findings_of(s);
    assert(r.findings@.map_values(|x: String| x@).len() == r.findings@.len());
    reveal_strlit("Contains authentication keywords");
    reveal_strlit("Contains urgency/scareword markers");
    reveal_strlit("Contains password input form");
    reveal_strlit("Loads external resources (potential tracking)");
    reveal_strlit("CRITICAL: Do not provide credentials. Page is highly suspicious.");
    reveal_strlit("WARNING: Use caution. Inspect sources before interacting.");
    reveal_strlit("Neutral: No immediate threats detected.");
    if s.auth_keywords {
        assert(f[0] == auth_finding());
    }
    if f.contains(auth_finding()) {
        let i = choose|i: int| 0 <= i < f.len() && f[i] == auth_finding();
        assert(f[i][0] == 'C' && f[i][9] == 'a');
    }
    if s.password_form {
        let i = (if s.auth_keywords { 1int } else { 0int }) + (if s.urgency_markers { 1int } else { 0int });
        assert(f[i] == form_finding());
    }
    if f.contains(form_finding()) {
        let i = choose|i: int| 0 <= i < f.len() && f[i] == form_finding();
        assert(f[i][9] == 'p');
    }
    assert(critical_action()[0] != warning_action()[0]);
    assert(critical_action()[0] != neutral_action()[0]);
}

proof fn lemma_contains_in_extension(pre: Seq<char>, mid: Seq<char>, post: Seq<char>, pat: Seq<char>)
    requires
        contains_seq(mid, pat),
    ensures
        contains_seq(pre + mid + post, pat),
{
    let i = choose|i: int| 0 <= i && i + pat.len() <= mid.len() && #[trigger] mid.subrange(i, i + pat.len()) == pat;
    let whole = pre + mid + post;
    let j = pre.len() + i;
    assert(whole.subrange(j, j + pat.len()) =~= mid.subrange(i, i + pat.len()));
}

proof fn lemma_words_in_extension(words: Seq<Seq<char>>, pre: Seq<char>, mid: Seq<char>, post: Seq<char>)
    requires
        matches_any_word(words, mid),
    ensures
        matches_any_word(words, pre + mid + post),
{
    let k = choose|k: int| 0 <= k < words.len() && contains_seq(mid, #[trigger] words[k]);
    lemma_contains_in_extension(pre, mid, post, words[k]);
}

/// Every signal of `small` is a signal of `grown`.
pub open spec fn signals_within(small: RiskSignals, grown: RiskSignals) -> bool {
    &&& small.auth_keywords ==> grown.auth_keywords
    &&& small.urgency_markers ==> grown.urgency_markers
    &&& small.password_form ==> grown.password_form
    &&& small.external_resources ==> grown.external_resources
}

/// The texts of a report's findings, in order.
pub open spec fn finding_texts(r: RiskReport) -> Seq<Seq<char>> {
    r.findings@.map_values(|x: String| x@)
}

/// The report `r` holds every finding of the signals `s`, scores at least
/// as high as they do and is recommended at least as severely.
pub open spec fn report_covers(r: RiskReport, s: RiskSignals) -> bool {
    &&& forall|f: Seq<char>| findings_of(s).contains(f) ==> #[trigger] finding_texts(r).contains(f)
    &&& score_of(s) <= r.score_tenths
    &&& severity(score_of(s)) <= severity(r.score_tenths as nat)
}

proof fn lemma_findings_grow(small: RiskSignals, grown: RiskSignals)
    requires
        signals_within(small, grown),
    ensures
        forall|f: Seq<char>| findings_of(small).contains(f) ==> #[trigger] findings_of(grown).contains(f),
        score_of(small) <= score_of(grown),
        severity(score_of(small)) <= severity(score_of(grown)),
{
    law_score_is_monotone(small, grown);
    assert forall|f: Seq<char>| findings_of(small).contains(f) implies #[trigger] findings_of(grown).contains(f) by {
        let fs = findings_of(small);
        let fg = findings_of(grown);
        let i = choose|i: int| 0 <= i < fs.len() && fs[i] == f;
        let a = if small.auth_keywords { 1int } else { 0int };
        let u = if small.urgency_markers { 1int } else { 0int };
        let ga = if grown.auth_keywords { 1int } else { 0int };
        let gu = if grown.urgency_markers { 1int } else { 0int };
        let gw = if grown.password_form { 1int } else { 0int };
        if small.auth_keywords && i == 0 {
            assert(fg[0] == f);
        } else if small.urgency_markers && i == a {
            assert(fg[ga] == f);
        } else if small.password_form && i == a + u {
            assert(fg[ga + gu] == f);
        } else {
            assert(fg[ga + gu + gw] == f);
        }
    }
}

/// The signals read from the page itself (not its lowercase form) of a
/// piece of a page are signals of the whole page.
proof fn lemma_page_signals_in_extension(pre: Seq<char>, html: Seq<char>, post: Seq<char>, lowered: Seq<char>, lowered_whole: Seq<char>)
    ensures
        signals_of(html, lowered).password_form ==> signals_of(pre + html + post, lowered_whole).password_form,
        signals_of(html, lowered).external_resources ==> signals_of(pre + html + post, lowered_whole).external_resources,
{
    if contains_seq(html, "<form"@) {
        lemma_contains_in_extension(pre, html, post, "<form"@);
    }
    if contains_seq(html, "type=\"password\""@) {
        lemma_contains_in_extension(pre, html, post, "type=\"password\""@);
    }
    if contains_seq(html, "type='password'"@) {
        lemma_contains_in_extension(pre, html, post, "type='password'"@);
    }
    if contains_seq(html, "src=\"http"@) {
        lemma_contains_in_extension(pre, html, post, "src=\"http"@);
    }
    if contains_seq(html, "src='http"@) {
        lemma_contains_in_extension(pre, html, post, "src='http"@);
    }
}

proof fn lemma_keyword_lists_are_plain()
    ensures
        forall|k: int| 0 <= k < auth_words().len() ==> is_plain_word(#[trigger] auth_words()[k]),
        forall|k: int| 0 <= k < urgency_words().len() ==> is_plain_word(#[trigger] urgency_words()[k]),
{
    assert forall|k: int| 0 <= k < auth_words().len() implies is_plain_word(#[trigger] auth_words()[k]) by {
        assert(k == 0 || k == 1 || k == 2 || k == 3);
    }
    assert forall|k: int| 0 <= k < urgency_words().len() implies is_plain_word(#[trigger] urgency_words()[k]) by {
        assert(k == 0 || k == 1 || k == 2 || k == 3);
    }
}

proof fn lemma_words_kept(words: Seq<Seq<char>>, lowered_piece: Seq<char>, lowered_whole: Seq<char>)
    requires
        keeps_ascii_words(lowered_piece, lowered_whole),
        forall|k: int| 0 <= k < words.len() ==> is_plain_word(#[trigger] words[k]),
        matches_any_word(words, lowered_piece),
    ensures
        matches_any_word(words, lowered_whole),
{
    let k = choose|k: int| 0 <= k < words.len() && contains_seq(lowered_piece, #[trigger] words[k]);
    assert(is_plain_word(words[k]));
    assert(contains_seq(lowered_whole, words[k]));
}

/// The signals of a piece of a page, given the page's lowercase form and
/// the piece's, are signals of the whole page, provided every ASCII word
/// of the piece's lowercase form stands in the page's.
proof fn lemma_piece_signals_within(
    pre: Seq<char>,
    piece: Seq<char>,
    post: Seq<char>,
    lowered_piece: Seq<char>,
    lowered_whole: Seq<char>,
)
    requires
        keeps_ascii_words(lowered_piece, lowered_whole),
    ensures
        signals_within(signals_of(piece, lowered_piece), signals_of(pre + piece + post, lowered_whole)),
{
    lemma_keyword_lists_are_plain();
    if matches_any_word(auth_words(), lowered_piece) {
        lemma_words_kept(auth_words(), lowered_piece, lowered_whole);
    }
    if matches_any_word(urgency_words(), lowered_piece) {
        lemma_words_kept(urgency_words(), lowered_piece, lowered_whole);
    }
    lemma_page_signals_in_extension(pre, piece, post, lowered_piece, lowered_whole);
}

/// A page grown at either end is at least as risky: every signal of the
/// page `html` (with lowercase form `lowered`) is a signal of
/// `pre + html + post` whose lowercase form is `lowered_pre + lowered +
/// lowered_post`, so the grown page keeps every finding, scores at least as
/// high and is recommended at least as severely.
pub proof fn law_assessment_grows_with_page(
    pre: Seq<char>,
    html: Seq<char>,
    post: Seq<char>,
    lowered_pre: Seq<char>,
    lowered: Seq<char>,
    lowered_post: Seq<char>,
)
    ensures
        ({
            let small = signals_of(html, lowered);
            let grown = signals_of(pre + html + post, lowered_pre + lowered + lowered_post);
            &&& signals_within(small, grown)
            &&& forall|f: Seq<char>| findings_of(small).contains(f) ==> #[trigger] findings_of(grown).contains(f)
            &&& score_of(small) <= score_of(grown)
            &&& severity(score_of(small)) <= severity(score_of(grown))
        }),
{
    let small = signals_of(html, lowered);
    let grown = signals_of(pre + html + post, lowered_pre + lowered + lowered_post);
    if small.auth_keywords {
        lemma_words_in_extension(auth_words(), lowered_pre, lowered, lowered_post);
    }
    if small.urgency_markers {
        lemma_words_in_extension(urgency_words(), lowered_pre, lowered, lowered_post);
    }
    lemma_page_signals_in_extension(pre, html, post, lowered, lowered_pre + lowered + lowered_post);
    lemma_findings_grow(small, grown);
}

/// What a page is examined for: it asks for credentials exactly when its
/// lowercase form contains "login", "password", "signin" or "account"; it
/// uses scare tactics exactly when its lowercase form contains "urgent",
/// "verify", "locked" or "suspended"; it has a password form exactly when
/// it contains "<form" and a password input type (double- or
/// single-quoted); it loads external resources exactly when it contains
/// `src="http` or `src='http`.
pub proof fn law_signals_are_the_listed_markers(html: Seq<char>, lowered: Seq<char>)
    ensures
        signals_of(html, lowered).auth_keywords <==> (contains_seq(lowered, "login"@) || contains_seq(lowered, "password"@)
            || contains_seq(lowered, "signin"@) || contains_seq(lowered, "account"@)),
        signals_of(html, lowered).urgency_markers <==> (contains_seq(lowered, "urgent"@) || contains_seq(lowered, "verify"@)
            || contains_seq(lowered, "locked"@) || contains_seq(lowered, "suspended"@)),
        signals_of(html, lowered).password_form <==> (contains_seq(html, "<form"@) && (contains_seq(html, "type=\"password\""@)
            || contains_seq(html, "type='password'"@))),
        signals_of(html, lowered).external_resources <==> (contains_seq(html, "src=\"http"@) || contains_seq(html, "src='http"@)),
{
    reveal_strlit("login");
    reveal_strlit("password");
    reveal_strlit("signin");
    reveal_strlit("account");
    reveal_strlit("urgent");
    reveal_strlit("verify");
    reveal_strlit("locked");
    reveal_strlit("suspended");
    let a = auth_words();
    let u = urgency_words();
    assert(a[0] =~= "login"@ && a[1] =~= "password"@ && a[2] =~= "signin"@ && a[3] =~= "account"@);
    assert(u[0] =~= "urgent"@ && u[1] =~= "verify"@ && u[2] =~= "locked"@ && u[3] =~= "suspended"@);
    if matches_any_word(a, lowered) {
        let k = choose|k: int| 0 <= k < a.len() && contains_seq(lowered, #[trigger] a[k]);
        assert(k == 0 || k == 1 || k == 2 || k == 3);
    }
    if contains_seq(lowered, "login"@) { assert(contains_seq(lowered, a[0])); }
    if contains_seq(lowered, "password"@) { assert(contains_seq(lowered, a[1])); }
    if contains_seq(lowered, "signin"@) { assert(contains_seq(lowered, a[2])); }
    if contains_seq(lowered, "account"@) { assert(contains_seq(lowered, a[3])); }
    if matches_any_word(u, lowered) {
        let k = choose|k: int| 0 <= k < u.len() && contains_seq(lowered, #[trigger] u[k]);
        assert(k == 0 || k == 1 || k == 2 || k == 3);
    }
    if contains_seq(lowered, "urgent"@) { assert(contains_seq(lowered, u[0])); }
    if contains_seq(lowered, "verify"@) { assert(contains_seq(lowered, u[1])); }
    if contains_seq(lowered, "locked"@) { assert(contains_seq(lowered, u[2])); }
    if contains_seq(lowered, "suspended"@) { assert(contains_seq(lowered, u[3])); }
}

/// What a report says of the signals it was made for: its score in tenths
/// adds 2 for credential keywords, 1 for urgency markers, 4 for a password
/// form and 3 for external resources; it lists, in that order, one finding
/// per signal present ("Contains authentication keywords", "Contains
/// urgency/scareword markers", "Contains password input form", "Loads
/// external resources (potential tracking)") and nothing else; and it
/// recommends CRITICAL from seven tenths, WARNING from four, and Neutral
/// below.
pub proof fn law_report_weights_findings_and_action(r: RiskReport, s: RiskSignals)
    requires
        is_report_for(r, s),
    ensures
        r.score_tenths == (if s.auth_keywords { 2int } else { 0int }) + (if s.urgency_markers { 1int } else { 0int })
            + (if s.password_form { 4int } else { 0int }) + (if s.external_resources { 3int } else { 0int }),
        finding_texts(r) == (if s.auth_keywords { seq!["Contains authentication keywords"@] } else { Seq::empty() })
            + (if s.urgency_markers { seq!["Contains urgency/scareword markers"@] } else { Seq::empty() })
            + (if s.password_form { seq!["Contains password input form"@] } else { Seq::empty() })
            + (if s.external_resources { seq!["Loads external resources (potential tracking)"@] } else { Seq::empty() }),
        r.score_tenths >= 7 ==> r.recommended_action@ == "CRITICAL: Do not provide credentials. Page is highly suspicious."@,
        4 <= r.score_tenths < 7 ==> r.recommended_action@ == "WARNING: Use caution. Inspect sources before interacting."@,
        r.score_tenths < 4 ==> r.recommended_action@ == "Neutral: No immediate threats detected."@,
{
}

/// A page whose lowercase form contains "signin" (or any other credential
/// keyword) is reported with the authentication finding and scores at
/// least two tenths; one with a password form scores at least four tenths.
pub proof fn law_credential_pages_are_flagged(r: RiskReport, html: Seq<char>, lowered: Seq<char>)
    requires
        is_report_for(r, signals_of(html, lowered)),
    ensures
        (contains_seq(lowered, "login"@) || contains_seq(lowered, "password"@) || contains_seq(lowered, "signin"@)
            || contains_seq(lowered, "account"@)) ==> finding_texts(r).contains("Contains authentication keywords"@)
            && r.score_tenths >= 2,
        signals_of(html, lowered).password_form ==> finding_texts(r).contains("Contains password input form"@)
            && r.score_tenths >= 4,
{
    law_signals_are_the_listed_markers(html, lowered);
    let s = signals_of(html, lowered);
    law_report_weights_findings_and_action(r, s);
    if s.auth_keywords {
        assert(finding_texts(r)[0] == "Contains authentication keywords"@);
    }
    if s.password_form {
        let i = (if s.auth_keywords { 1int } else { 0int }) + (if s.urgency_markers { 1int } else { 0int });
        assert(finding_texts(r)[i] == "Contains password input form"@);
    }
}

} // verus!
