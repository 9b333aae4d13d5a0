use vstd::prelude::*;
use std::collections::{HashMap, HashSet};

verus! {

/// The views of a sequence of string slices.
pub open spec fn strs_view(v: Seq<&str>) -> Seq<Seq<char>> {
    v.map_values(|s: &str| s@)
}

/// The views of a tag-to-attributes list.
pub open spec fn tag_attrs_view(v: Seq<(&str, Vec<&str>)>) -> Seq<(Seq<char>, Seq<Seq<char>>)> {
    v.map_values(|e: (&str, Vec<&str>)| (e.0@, strs_view(e.1@)))
}

/// The HTML that `ammonia::Builder::clean` produces for `html` when the
/// builder allows exactly the tags `tags` (with the attributes listed per
/// tag in `tag_attributes`) and drops the content of `clean_content_tags`,
/// all else as `Builder::new()` sets it.
pub uninterp spec fn ammonia_clean_html(
    tags: Seq<Seq<char>>,
    tag_attributes: Seq<(Seq<char>, Seq<Seq<char>>)>,
    clean_content_tags: Seq<Seq<char>>,
    html: Seq<char>,
) -> Seq<char>;

/// A policy that `ammonia::Builder::clean` accepts without panicking: no
/// tag whose content is dropped is also allowed or given attributes, and
/// `a` is not given a `rel` attribute (the builder sets `rel` itself).
pub open spec fn policy_is_consistent(
    tags: Seq<Seq<char>>,
    tag_attributes: Seq<(Seq<char>, Seq<Seq<char>>)>,
    clean_content_tags: Seq<Seq<char>>,
) -> bool {
    &&& forall|i: int| 0 <= i < clean_content_tags.len() ==> !tags.contains(#[trigger] clean_content_tags[i])
    &&& forall|i: int, j: int|
        0 <= i < clean_content_tags.len() && 0 <= j < tag_attributes.len() ==> #[trigger] tag_attributes[j].0
            != #[trigger] clean_content_tags[i]
    &&& forall|j: int|
        0 <= j < tag_attributes.len() && #[trigger] tag_attributes[j].0 == seq!['a'] ==> !tag_attributes[j].1.contains(
            seq!['r', 'e', 'l'],
        )
}

/// `ammonia::Builder::new()` configured with `tags`, `tag_attributes` and
/// `clean_content_tags`, then `Builder::clean(html)` rendered to a string.
/// Its result is the named cleaning of `html` under that policy; the
/// builder panics on inconsistent policies, which `requires` leaves out.
#[verifier::external_body]
fn ammonia_clean(
    tags: &Vec<&'static str>,
    tag_attributes: &Vec<(&'static str, Vec<&'static str>)>,
    clean_content_tags: &Vec<&'static str>,
    html: &str,
) -> (r: String)
    requires
        policy_is_consistent(strs_view(tags@), tag_attrs_view(tag_attributes@), strs_view(clean_content_tags@)),
    ensures
        r@ == ammonia_clean_html(strs_view(tags@), tag_attrs_view(tag_attributes@), strs_view(clean_content_tags@), html@),
{
    let attrs: HashMap<&str, HashSet<&str>> = tag_attributes.iter().map(|(t, a)| (*t, a.iter().copied().collect())).collect();
    let mut builder = ammonia::Builder::new();
    builder.tags(tags.iter().copied().collect()).tag_attributes(attrs).clean_content_tags(clean_content_tags.iter().copied().collect());
    builder.clean(html).to_string()
}

/// The tags a default sanitizer keeps: b, i, em, strong, p, br, div, span,
/// table, tr, td, th, h1, h2, h3.
pub open spec fn default_tags() -> Seq<Seq<char>> {
    seq![
        seq!['b'],
        seq!['i'],
        seq!['e', 'm'],
        seq!['s', 't', 'r', 'o', 'n', 'g'],
        seq!['p'],
        seq!['b', 'r'],
        seq!['d', 'i', 'v'],
        seq!['s', 'p', 'a', 'n'],
        seq!['t', 'a', 'b', 'l', 'e'],
        seq!['t', 'r'],
        seq!['t', 'd'],
        seq!['t', 'h'],
        seq!['h', '1'],
        seq!['h', '2'],
        seq!['h', '3'],
    ]
}

/// The attributes a default sanitizer keeps: `style` on p, div and span.
pub open spec fn default_tag_attributes() -> Seq<(Seq<char>, Seq<Seq<char>>)> {
    let style = seq![seq!['s', 't', 'y', 'l', 'e']];
    seq![(seq!['p'], style), (seq!['d', 'i', 'v'], style), (seq!['s', 'p', 'a', 'n'], style)]
}

/// The tags a default sanitizer removes together with their content:
/// script, style, object, embed, iframe, canvas.
pub open spec fn default_clean_content_tags() -> Seq<Seq<char>> {
    seq![
        seq!['s', 'c', 'r', 'i', 'p', 't'],
        seq!['s', 't', 'y', 'l', 'e'],
        seq!['o', 'b', 'j', 'e', 'c', 't'],
        seq!['e', 'm', 'b', 'e', 'd'],
        seq!['i', 'f', 'r', 'a', 'm', 'e'],
        seq!['c', 'a', 'n', 'v', 'a', 's'],
    ]
}

/// An HTML sanitizer with an allow-list policy.
pub struct ContentSanitizer {
    tags: Vec<&'static str>,
    tag_attributes: Vec<(&'static str, Vec<&'static str>)>,
    clean_content_tags: Vec<&'static str>,
}

impl ContentSanitizer {
    #[verifier::type_invariant]
    spec fn consistent(self) -> bool {
        policy_is_consistent(self.allowed_tags(), self.allowed_attributes(), self.dropped_content_tags())
    }

    /// The tags the sanitizer keeps.
    pub closed spec fn allowed_tags(self) -> Seq<Seq<char>> {
        strs_view(self.tags@)
    }

    /// The attributes the sanitizer keeps, per tag.
    pub closed spec fn allowed_attributes(self) -> Seq<(Seq<char>, Seq<Seq<char>>)> {
        tag_attrs_view(self.tag_attributes@)
    }

    /// The tags the sanitizer removes together with their content.
    pub closed spec fn dropped_content_tags(self) -> Seq<Seq<char>> {
        strs_view(self.clean_content_tags@)
    }

    /// Cleans `html` under this sanitizer's policy.
    pub fn sanitize(&self, html: &str) -> (r: String)
        ensures
            r@ == ammonia_clean_html(self.allowed_tags(), self.allowed_attributes(), self.dropped_content_tags(), html@),
    {
        proof {
            use_type_invariant(self);
        }
        ammonia_clean(&self.tags, &self.tag_attributes, &self.clean_content_tags, html)
    }

    /// Redaction is a separate step from sanitization and leaves the text as
    /// it is.
    pub fn redact_sensitive_info(&self, text: &str) -> (r: String)
        ensures
            r@ == text@,
    {
        text.to_string()
    }
}

/// The default policy is one the cleaner accepts.
proof fn lemma_default_policy_is_consistent()
    ensures
        policy_is_consistent(default_tags(), default_tag_attributes(), default_clean_content_tags()),
{
    let tags = default_tags();
    let cc = default_clean_content_tags();
    let attrs = default_tag_attributes();
    assert forall|i: int| 0 <= i < cc.len() implies !tags.contains(#[trigger] cc[i]) by {
        if tags.contains(cc[i]) {
            let j = choose|j: int| 0 <= j < tags.len() && tags[j] == cc[i];
            assert(tags[j][0] == cc[i][0]);
            assert(tags[j].len() == cc[i].len());
        }
    }
    assert forall|i: int, j: int| 0 <= i < cc.len() && 0 <= j < attrs.len() implies #[trigger] attrs[j].0 != #[trigger] cc[i] by {
        if attrs[j].0 == cc[i] {
            assert(attrs[j].0[0] == cc[i][0]);
            assert(attrs[j].0.len() == cc[i].len());
        }
    }
    assert forall|j: int| 0 <= j < attrs.len() && #[trigger] attrs[j].0 == seq!['a'] implies !attrs[j].1.contains(seq!['r', 'e', 'l']) by {
        assert(attrs[j].0[0] != 'a');
    }
}

impl Default for ContentSanitizer {
    /// The sanitizer of the default policy: text formatting and table tags
    /// kept, `style` kept on p, div and span, and scripts, styles, objects,
    /// embeds, iframes and canvases removed with their content.
    fn default() -> (s: Self)
        ensures
            s.allowed_tags() == default_tags(),
            s.allowed_attributes() == default_tag_attributes(),
            s.dropped_content_tags() == default_clean_content_tags(),
    {
        let tags: Vec<&'static str> = vec!["b", "i", "em", "strong", "p", "br", "div", "span", "table", "tr", "td", "th", "h1", "h2", "h3"];
        proof {
            reveal_strlit("b");
            reveal_strlit("i");
            reveal_strlit("em");
            reveal_strlit("strong");
            reveal_strlit("p");
            reveal_strlit("br");
            reveal_strlit("div");
            reveal_strlit("span");
            reveal_strlit("table");
            reveal_strlit("tr");
            reveal_strlit("td");
            reveal_strlit("th");
            reveal_strlit("h1");
            reveal_strlit("h2");
            reveal_strlit("h3");
            assert(tags@[0]@ =~= default_tags()[0]);
            assert(tags@[1]@ =~= default_tags()[1]);
            assert(tags@[2]@ =~= default_tags()[2]);
            assert(tags@[3]@ =~= default_tags()[3]);
            assert(tags@[4]@ =~= default_tags()[4]);
            assert(tags@[5]@ =~= default_tags()[5]);
            assert(tags@[6]@ =~= default_tags()[6]);
            assert(tags@[7]@ =~= default_tags()[7]);
            assert(tags@[8]@ =~= default_tags()[8]);
            assert(tags@[9]@ =~= default_tags()[9]);
            assert(tags@[10]@ =~= default_tags()[10]);
            assert(tags@[11]@ =~= default_tags()[11]);
            assert(tags@[12]@ =~= default_tags()[12]);
            assert(tags@[13]@ =~= default_tags()[13]);
            assert(tags@[14]@ =~= default_tags()[14]);
            assert(strs_view(tags@) =~= default_tags());
        }
        let clean_content_tags: Vec<&'static str> = vec!["script", "style", "object", "embed", "iframe", "canvas"];
        proof {
            reveal_strlit("script");
            reveal_strlit("style");
            reveal_strlit("object");
            reveal_strlit("embed");
            reveal_strlit("iframe");
            reveal_strlit("canvas");
            assert(clean_content_tags@[0]@ =~= default_clean_content_tags()[0]);
            assert(clean_content_tags@[1]@ =~= default_clean_content_tags()[1]);
            assert(clean_content_tags@[2]@ =~= default_clean_content_tags()[2]);
            assert(clean_content_tags@[3]@ =~= default_clean_content_tags()[3]);
            assert(clean_content_tags@[4]@ =~= default_clean_content_tags()[4]);
            assert(clean_content_tags@[5]@ =~= default_clean_content_tags()[5]);
            assert(strs_view(clean_content_tags@) =~= default_clean_content_tags());
        }
        let tag_attributes: Vec<(&'static str, Vec<&'static str>)> = vec![
            ("p", vec!["style"]),
            ("div", vec!["style"]),
            ("span", vec!["style"]),
        ];
        proof {
            reveal_strlit("p");
            reveal_strlit("div");
            reveal_strlit("span");
            reveal_strlit("style");
            assert(strs_view(tag_attributes@[0].1@) =~= default_tag_attributes()[0].1);
            assert(strs_view(tag_attributes@[1].1@) =~= default_tag_attributes()[1].1);
            assert(strs_view(tag_attributes@[2].1@) =~= default_tag_attributes()[2].1);
            assert(tag_attributes@[0].0@ =~= default_tag_attributes()[0].0);
            assert(tag_attributes@[1].0@ =~= default_tag_attributes()[1].0);
            assert(tag_attributes@[2].0@ =~= default_tag_attributes()[2].0);
            assert(tag_attrs_view(tag_attributes@) =~= default_tag_attributes());
            lemma_default_policy_is_consistent();
        }
        ContentSanitizer { tags, tag_attributes, clean_content_tags }
    }
}

/// The default policy, tag by tag: it keeps exactly the tags b, i, em,
/// strong, p, br, div, span, table, tr, td, th, h1, h2 and h3, in that
/// order; it keeps the `style` attribute on p, div and span and no other
/// attribute; and it removes script, style, object, embed, iframe and
/// canvas together with their content.
pub proof fn law_default_policy_is_the_listed_one()
    ensures
        default_tags() == seq!["b"@, "i"@, "em"@, "strong"@, "p"@, "br"@, "div"@, "span"@, "table"@, "tr"@, "td"@, "th"@, "h1"@, "h2"@, "h3"@],
        default_tags().contains("h1"@) && default_tags().contains("h2"@) && default_tags().contains("h3"@),
        default_tag_attributes() == seq![("p"@, seq!["style"@]), ("div"@, seq!["style"@]), ("span"@, seq!["style"@])],
        default_clean_content_tags() == seq!["script"@, "style"@, "object"@, "embed"@, "iframe"@, "canvas"@],
{
    reveal_strlit("b");
    reveal_strlit("br");
    reveal_strlit("canvas");
    reveal_strlit("div");
    reveal_strlit("em");
    reveal_strlit("embed");
    reveal_strlit("h1");
    reveal_strlit("h2");
    reveal_strlit("h3");
    reveal_strlit("i");
    reveal_strlit("iframe");
    reveal_strlit("object");
    reveal_strlit("p");
    reveal_strlit("script");
    reveal_strlit("span");
    reveal_strlit("strong");
    reveal_strlit("style");
    reveal_strlit("table");
    reveal_strlit("td");
    reveal_strlit("th");
    reveal_strlit("tr");
    let t = seq!["b"@, "i"@, "em"@, "strong"@, "p"@, "br"@, "div"@, "span"@, "table"@, "tr"@, "td"@, "th"@, "h1"@, "h2"@, "h3"@];
    assert(default_tags()[0] =~= t[0]);
    assert(default_tags()[1] =~= t[1]);
    assert(default_tags()[2] =~= t[2]);
    assert(default_tags()[3] =~= t[3]);
    assert(default_tags()[4] =~= t[4]);
    assert(default_tags()[5] =~= t[5]);
    assert(default_tags()[6] =~= t[6]);
    assert(default_tags()[7] =~= t[7]);
    assert(default_tags()[8] =~= t[8]);
    assert(default_tags()[9] =~= t[9]);
    assert(default_tags()[10] =~= t[10]);
    assert(default_tags()[11] =~= t[11]);
    assert(default_tags()[12] =~= t[12]);
    assert(default_tags()[13] =~= t[13]);
    assert(default_tags()[14] =~= t[14]);
    assert(default_tags() =~= t);
    assert(t[12] == "h1"@ && t[13] == "h2"@ && t[14] == "h3"@);
    let c = seq!["script"@, "style"@, "object"@, "embed"@, "iframe"@, "canvas"@];
    assert(default_clean_content_tags()[0] =~= c[0]);
    assert(default_clean_content_tags()[1] =~= c[1]);
    assert(default_clean_content_tags()[2] =~= c[2]);
    assert(default_clean_content_tags()[3] =~= c[3]);
    assert(default_clean_content_tags()[4] =~= c[4]);
    assert(default_clean_content_tags()[5] =~= c[5]);
    assert(default_clean_content_tags() =~= c);
    let style = seq!["style"@];
    assert(style[0] =~= seq!['s', 't', 'y', 'l', 'e']);
    assert(seq![seq!['s', 't', 'y', 'l', 'e']] =~= style);
    assert("p"@ =~= seq!['p']);
    assert("div"@ =~= seq!['d', 'i', 'v']);
    assert("span"@ =~= seq!['s', 'p', 'a', 'n']);
    assert(default_tag_attributes() =~= seq![("p"@, style), ("div"@, style), ("span"@, style)]);
}

} // verus!
