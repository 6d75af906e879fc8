//! The pre-filled bug-report link of the project's issue tracker.

use crate::anatomy::authority_of;
use crate::anatomy::authority_stops;
use crate::anatomy::free_of;
use crate::anatomy::has_authority;
use crate::anatomy::has_fragment;
use crate::anatomy::has_query;
use crate::anatomy::has_scheme;
use crate::anatomy::lemma_free_of_concat;
use crate::anatomy::lemma_query_pairs_first;
use crate::anatomy::lemma_query_pairs_last;
use crate::anatomy::lemma_span_prefix;
use crate::anatomy::lemma_span_whole;
use crate::anatomy::path_of;
use crate::anatomy::path_stops;
use crate::anatomy::query_of;
use crate::anatomy::query_pairs;
use crate::anatomy::query_stops;
use crate::anatomy::scheme_of;
use crate::anatomy::scheme_stops;
use crate::canonical::is_canonical;
use crate::canonical::surface;
use crate::error::BridgeError;
use crate::form::form_decode;
use crate::form::form_encode;
use crate::form::form_pair;
use crate::form::form_pairs;
use crate::form::lemma_encode_plain;
use crate::form::lemma_form_encode_avoids;
use crate::form::lemma_form_round_trip;
use crate::form::lemma_plain_avoids;
use crate::form::plain_text;
use crate::parser::canonical_form;
use crate::parser::pairs_view;
use crate::parser::parse_url_with_params;
use crate::parser::query_free;
use vstd::prelude::*;
use vstd::string::StringExecFns;

verus! {

/// The organisation that owns the tracked repository.
pub const ORG: &'static str = "cataclysmbnteam";

/// The tracked repository.
pub const REPO: &'static str = "Cataclysm-BN";

/// The path of the tracker's form for a new issue.
pub open spec fn issue_path_text() -> Seq<char> {
    "/"@ + ORG@ + "/"@ + REPO@ + "/issues/new"@
}

/// The address of the tracker's form for a new issue.
pub open spec fn issue_base_text() -> Seq<char> {
    "https://github.com"@ + issue_path_text()
}

/// Whether the tracker's address is a URL in canonical form. It is one with
/// the parser this library is built with; a change of `ORG` or `REPO` that
/// breaks it is a defect of the build.
pub open spec fn issue_base_is_canonical() -> bool {
    canonical_form(issue_base_text()) == Some(issue_base_text())
}

/// The three parameters of the link, in their order: the label, the issue
/// template, and the report as the value of the last.
pub open spec fn issue_pairs(report: Seq<char>) -> Seq<(Seq<char>, Seq<char>)> {
    seq![
        ("labels"@, "bug"@),
        ("template"@, "bug_report.yml"@),
        ("versions-and-configuration"@, report),
    ]
}

/// The query of the link up to the report.
pub open spec fn issue_query_head() -> Seq<char> {
    "labels=bug&template=bug_report.yml&versions-and-configuration="@
}

/// The link for `report`: the tracker's address, `?`, the two fixed
/// parameters, and the report, encoded, as the value of the third.
pub open spec fn issue_url_text(report: Seq<char>) -> Seq<char> {
    issue_base_text() + seq!['?'] + issue_query_head() + form_encode(report)
}

/// The pairs that the query of the link holds, as they are written.
pub open spec fn issue_query_pairs(report: Seq<char>) -> Seq<(Seq<char>, Seq<char>)> {
    seq![
        ("labels"@, "bug"@),
        ("template"@, "bug_report.yml"@),
        ("versions-and-configuration"@, form_encode(report)),
    ]
}

/// The address of the tracker's form for a new issue.
pub fn issue_base_url() -> (base: String)
    ensures
        base@ == issue_base_text(),
{
    let mut base = String::from_str("https://github.com");
    base.append("/");
    base.append(ORG);
    base.append("/");
    base.append(REPO);
    base.append("/issues/new");
    assert(base@ =~= issue_base_text());
    base
}

/// The three parameters of the link for `report`.
pub fn issue_params(report: String) -> (pairs: Vec<(String, String)>)
    ensures
        pairs_view(pairs@) == issue_pairs(report@),
{
    let mut pairs: Vec<(String, String)> = Vec::new();
    pairs.push((String::from_str("labels"), String::from_str("bug")));
    pairs.push((String::from_str("template"), String::from_str("bug_report.yml")));
    pairs.push((String::from_str("versions-and-configuration"), report));
    assert(pairs_view(pairs@) =~= issue_pairs(report@));
    pairs
}

/// Builds the link that opens the tracker's form for a new issue with `report`
/// filled in.
///
/// The report never decides whether a link comes back: the call fails, with
/// `Construction`, exactly where the tracker's address is not a URL in
/// canonical form. The link is `issue_url_text` of the report;
/// `lemma_issue_url_says` states what such a link says.
pub fn github_issue_url(report: String) -> (r: Result<String, BridgeError>)
    ensures
        match r {
            Ok(url) => issue_base_is_canonical() && url@ == issue_url_text(report@),
            Err(e) => !issue_base_is_canonical() && e == BridgeError::Construction,
        },
{
    let base = issue_base_url();
    if !is_canonical(base.as_str()) {
        return Err(BridgeError::Construction);
    }
    let ghost text = report@;
    let pairs = issue_params(report);
    proof {
        lemma_base_query_free();
        lemma_issue_query(text);
    }
    let built = parse_url_with_params(base.as_str(), &pairs);
    assert(built matches Ok(url) && url@ =~= issue_url_text(text));
    surface(built, BridgeError::Construction)
}

/// What the link says, whatever the report holds: it is an absolute URL, with
/// a scheme and an authority; it leads to the host `github.com`, with no user
/// name and no port beside it, and to the path of the tracker's form; it has
/// no fragment; its query is exactly the three parameters in their order, the
/// report being the value of the third; and decoding that value gives the
/// report back, character for character.
pub proof fn lemma_issue_url_says(report: Seq<char>)
    ensures
        has_scheme(issue_url_text(report)),
        has_authority(issue_url_text(report)),
        scheme_of(issue_url_text(report)) == "https"@,
        authority_of(issue_url_text(report)) == "github.com"@,
        free_of(authority_of(issue_url_text(report)), set!['@', ':']),
        path_of(issue_url_text(report)) == "/cataclysmbnteam/Cataclysm-BN/issues/new"@,
        has_query(issue_url_text(report)),
        !has_fragment(issue_url_text(report)),
        query_pairs(query_of(issue_url_text(report))) == issue_query_pairs(report),
        form_decode(issue_query_pairs(report)[2].1) == Some(report),
{
    let url = issue_url_text(report);
    let path = issue_path_text();
    let query = issue_query_head() + form_encode(report);
    let behind_path = seq!['?'] + query;
    let behind_host = path + behind_path;
    let behind_slashes = "github.com"@ + behind_host;
    let behind_colon = "//"@ + behind_slashes;
    lemma_base_parts();
    lemma_base_parts_free();
    assert(url =~= "https"@ + (seq![':'] + behind_colon));
    // the scheme
    lemma_span_prefix("https"@, seq![':'] + behind_colon, scheme_stops());
    assert(url.take(5) =~= "https"@);
    assert(url.skip(6) =~= behind_colon);
    // the authority
    assert(behind_colon.skip(2) =~= behind_slashes);
    lemma_span_prefix("github.com"@, behind_host, authority_stops());
    assert(behind_slashes.take("github.com"@.len() as int) =~= "github.com"@);
    assert(behind_slashes.skip("github.com"@.len() as int) =~= behind_host);
    // the path
    lemma_span_prefix(path, behind_path, path_stops());
    assert(behind_host.take(path.len() as int) =~= path);
    assert(behind_host.skip(path.len() as int) =~= behind_path);
    // the query
    assert(behind_path.skip(1) =~= query);
    lemma_query_free_of(report, query_stops());
    lemma_span_whole(query, query_stops());
    assert(query.take(query.len() as int) =~= query);
    lemma_issue_query_pairs(report);
    lemma_form_round_trip(report);
    // no fragment
    assert(!behind_colon.contains('#')) by {
        lemma_url_has_no_hash(report);
    }
}

/// The tracker's address, part by part.
proof fn lemma_base_parts()
    ensures
        issue_base_text() == "https"@ + seq![':'] + "//"@ + "github.com"@ + issue_path_text(),
        issue_path_text() == "/cataclysmbnteam/Cataclysm-BN/issues/new"@,
        issue_base_text().len() == 58,
{
    reveal_strlit("https://github.com");
    reveal_strlit("cataclysmbnteam");
    reveal_strlit("Cataclysm-BN");
    reveal_strlit("/");
    reveal_strlit("/issues/new");
    reveal_strlit("https");
    reveal_strlit("//");
    reveal_strlit("github.com");
    reveal_strlit("/cataclysmbnteam/Cataclysm-BN/issues/new");
    assert(issue_base_text() =~= "https"@ + seq![':'] + "//"@ + "github.com"@ + issue_path_text());
    assert(issue_path_text() =~= "/cataclysmbnteam/Cataclysm-BN/issues/new"@);
}

/// Which delimiters the parts of the tracker's address are free of.
proof fn lemma_base_parts_free()
    ensures
        free_of("https"@, scheme_stops()),
        free_of("github.com"@, authority_stops()),
        free_of("github.com"@, set!['@', ':']),
        free_of(issue_path_text(), path_stops()),
        issue_path_text().len() > 0,
        issue_path_text()[0] == '/',
        "//"@.len() == 2,
        "//"@[0] == '/',
        "//"@[1] == '/',
        "https"@.len() == 5,
{
    lemma_base_parts();
    reveal_strlit("https");
    reveal_strlit("//");
    reveal_strlit("github.com");
    reveal_strlit("/cataclysmbnteam/Cataclysm-BN/issues/new");
}

/// The tracker's address has neither a query nor a fragment.
proof fn lemma_base_query_free()
    ensures
        query_free(issue_base_text()),
{
    lemma_base_parts();
    lemma_base_parts_free();
    reveal_strlit("https://github.com");
    let base = issue_base_text();
    let path = issue_path_text();
    assert forall|i: int| 0 <= i < base.len() implies base[i] != '?' && base[i] != '#' by {
        if i < 18 {
            assert(base[i] == "https://github.com"@[i]);
        } else {
            assert(base[i] == path[i - 18]);
            assert(!path_stops().contains(path[i - 18]));
        }
    }
}

/// The names and the fixed values of the parameters are written as they are.
proof fn lemma_fixed_texts_plain()
    ensures
        plain_text("labels"@),
        plain_text("bug"@),
        plain_text("template"@),
        plain_text("bug_report.yml"@),
        plain_text("versions-and-configuration"@),
{
    reveal_strlit("labels");
    reveal_strlit("bug");
    reveal_strlit("template");
    reveal_strlit("bug_report.yml");
    reveal_strlit("versions-and-configuration");
}

/// The head of the query, piece by piece.
proof fn lemma_query_head_pieces()
    ensures
        issue_query_head() == "labels"@ + seq!['='] + "bug"@ + seq!['&'] + "template"@ + seq!['=']
            + "bug_report.yml"@ + seq!['&'] + "versions-and-configuration"@ + seq!['='],
{
    reveal_strlit("labels");
    reveal_strlit("bug");
    reveal_strlit("template");
    reveal_strlit("bug_report.yml");
    reveal_strlit("versions-and-configuration");
    reveal_strlit("labels=bug&template=bug_report.yml&versions-and-configuration=");
    assert(issue_query_head() =~= "labels"@ + seq!['='] + "bug"@ + seq!['&'] + "template"@ + seq![
        '=',
    ] + "bug_report.yml"@ + seq!['&'] + "versions-and-configuration"@ + seq!['=']);
}

/// The parameters of the link, written as a query, are the head of the query
/// and the encoded report.
proof fn lemma_issue_query(report: Seq<char>)
    ensures
        form_pairs(issue_pairs(report)) == issue_query_head() + form_encode(report),
{
    let pairs = issue_pairs(report);
    let two = pairs.drop_last();
    let one = two.drop_last();
    assert(two =~= seq![("labels"@, "bug"@), ("template"@, "bug_report.yml"@)]);
    assert(one =~= seq![("labels"@, "bug"@)]);
    lemma_fixed_texts_plain();
    lemma_encode_plain("labels"@);
    lemma_encode_plain("bug"@);
    lemma_encode_plain("template"@);
    lemma_encode_plain("bug_report.yml"@);
    lemma_encode_plain("versions-and-configuration"@);
    assert(form_pairs(one) == form_pair(one[0]));
    assert(form_pairs(two) == form_pairs(one) + seq!['&'] + form_pair(two[1]));
    assert(form_pairs(pairs) == form_pairs(two) + seq!['&'] + form_pair(pairs[2]));
    lemma_query_head_pieces();
    assert(form_pairs(pairs) =~= issue_query_head() + form_encode(report));
}

/// The query of the link falls into the three pairs, in their order.
proof fn lemma_issue_query_pairs(report: Seq<char>)
    ensures
        query_pairs(issue_query_head() + form_encode(report)) == issue_query_pairs(report),
{
    let encoded = form_encode(report);
    let last = "versions-and-configuration"@ + seq!['='] + encoded;
    let middle = "template"@ + seq!['='] + "bug_report.yml"@ + seq!['&'] + last;
    let whole = "labels"@ + seq!['='] + "bug"@ + seq!['&'] + middle;
    lemma_query_head_pieces();
    assert(issue_query_head() + encoded =~= whole);
    lemma_fixed_texts_plain();
    let both = set!['=', '&'];
    let amp = set!['&'];
    lemma_plain_avoids("labels"@, both);
    lemma_plain_avoids("template"@, both);
    lemma_plain_avoids("versions-and-configuration"@, both);
    lemma_plain_avoids("bug"@, amp);
    lemma_plain_avoids("bug_report.yml"@, amp);
    lemma_form_encode_avoids(report, amp);
    lemma_query_pairs_last("versions-and-configuration"@, encoded);
    lemma_query_pairs_first("template"@, "bug_report.yml"@, last);
    lemma_query_pairs_first("labels"@, "bug"@, middle);
    assert(seq![("labels"@, "bug"@)] + (seq![("template"@, "bug_report.yml"@)] + seq![
        ("versions-and-configuration"@, encoded),
    ]) =~= issue_query_pairs(report));
}

/// The query of the link holds none of the characters in `stops`, where each
/// of them is `#` or `?`.
proof fn lemma_query_free_of(report: Seq<char>, stops: Set<char>)
    requires
        stops.subset_of(set!['#', '?']),
    ensures
        free_of(issue_query_head() + form_encode(report), stops),
{
    reveal_strlit("labels=bug&template=bug_report.yml&versions-and-configuration=");
    lemma_form_encode_avoids(report, stops);
    assert(free_of(issue_query_head(), stops));
    lemma_free_of_concat(issue_query_head(), form_encode(report), stops);
}

/// No `#` stands anywhere in the link.
proof fn lemma_url_has_no_hash(report: Seq<char>)
    ensures
        !issue_url_text(report).contains('#'),
        !issue_url_text(report).skip(6).contains('#'),
{
    let url = issue_url_text(report);
    let base = issue_base_text();
    let query = issue_query_head() + form_encode(report);
    lemma_base_query_free();
    lemma_query_free_of(report, query_stops());
    assert(url =~= base + (seq!['?'] + query));
    assert forall|i: int| 0 <= i < url.len() implies url[i] != '#' by {
        if i < base.len() {
            assert(base.contains(base[i]));
        } else if i > base.len() {
            assert(url[i] == query[i - base.len() - 1]);
            assert(!query_stops().contains(query[i - base.len() - 1]));
        }
    }
    lemma_base_parts();
    assert forall|i: int| 0 <= i < url.skip(6).len() implies url.skip(6)[i] != '#' by {
        assert(url.skip(6)[i] == url[i + 6]);
    }
}

} // verus!
