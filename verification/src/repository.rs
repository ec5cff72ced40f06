//! Parsing of an image reference into a canonical repository identity.
//!
//! A reference splits at its first `:` into a name and a tag; the tag
//! defaults to `latest`.  A name without a `/`, or without content before
//! its first `/`, is prefixed with the default `library` namespace, so the
//! parsed name always carries a non-empty namespace segment.

use vstd::prelude::*;
use vstd::string::*;
use crate::text::{
    contains_char, find_char, first_index_of, has_char, is_first_index_of,
    lemma_first_index_of_inverse, lemma_first_index_of_none, lemma_first_index_of_some,
};

verus! {

/// A canonical image identity: namespace-qualified name plus tag.
pub struct Repository {
    pub name: String,
    pub tag: String,
}

/// A name with a non-empty segment before its first `/` keeps it as the
/// namespace; a name with no `/`, or with nothing before its first `/`,
/// gains the default namespace, so the namespace segment of a resolved
/// name is never empty.
pub open spec fn spec_resolved_name(name: Seq<char>) -> Seq<char> {
    if !has_char(name, '/') {
        "library/"@ + name
    } else if name[0] == '/' {
        "library"@ + name
    } else {
        name
    }
}

/// The name component of a parsed reference.
pub open spec fn spec_repo_name(image: Seq<char>) -> Seq<char> {
    match first_index_of(image, ':') {
        Some(i) => spec_resolved_name(image.take(i)),
        None => spec_resolved_name(image),
    }
}

/// The tag component of a parsed reference.
pub open spec fn spec_repo_tag(image: Seq<char>) -> Seq<char> {
    match first_index_of(image, ':') {
        Some(i) => image.skip(i + 1),
        None => "latest"@,
    }
}

impl Repository {
    /// Parse a raw reference; every string is accepted.
    pub fn new(image: &str) -> (r: Repository)
        ensures
            r.name@ == spec_repo_name(image@),
            r.tag@ == spec_repo_tag(image@),
    {
        match find_char(image, ':') {
            Some(i) => {
                proof {
                    lemma_first_index_of_inverse(image@, ':');
                }
                let n = image.unicode_len();
                let name = image.substring_char(0, i);
                let tag = image.substring_char(i + 1, n);
                proof {
                    assert(name@ =~= image@.take(i as int));
                    assert(tag@ =~= image@.skip(i + 1));
                }
                Repository { name: Self::parse_repo_name(name), tag: tag.to_owned() }
            }
            None => Repository {
                name: Self::parse_repo_name(image),
                tag: String::from_str("latest"),
            },
        }
    }

    /// Prefix the default namespace when the name has no `/` or has no
    /// content before its first `/`: the namespace segment never ends up
    /// empty.
    pub fn parse_repo_name(name: &str) -> (r: String)
        ensures
            r@ == spec_resolved_name(name@),
    {
        if !contains_char(name, '/') {
            let mut r = String::from_str("library/");
            r.append(name);
            r
        } else if name.get_char(0) == '/' {
            let mut r = String::from_str("library");
            r.append(name);
            r
        } else {
            name.to_owned()
        }
    }
}

/// Law: name resolution always yields a non-empty namespace segment: the
/// resolved name holds a `/` and does not begin with one, so something
/// stands before its first `/`.
pub proof fn lemma_resolved_name_has_namespace(name: Seq<char>)
    ensures
        has_char(spec_resolved_name(name), '/'),
        spec_resolved_name(name).len() > 0,
        spec_resolved_name(name)[0] != '/',
{
    reveal_strlit("library/");
    reveal_strlit("library");
    if !has_char(name, '/') {
        assert(("library/"@ + name)[7] == '/');
        assert(0 <= 7 < ("library/"@ + name).len());
        assert(("library/"@ + name)[0] == 'l');
    } else if name[0] == '/' {
        assert(("library"@ + name)[7] == '/');
        assert(0 <= 7 < ("library"@ + name).len());
        assert(("library"@ + name)[0] == 'l');
    }
}

/// Law: a parsed repository name always carries a non-empty namespace
/// segment before its first `/`.
pub proof fn lemma_parsed_name_has_namespace(image: Seq<char>)
    ensures
        has_char(spec_repo_name(image), '/'),
        spec_repo_name(image).len() > 0,
        spec_repo_name(image)[0] != '/',
{
    match first_index_of(image, ':') {
        Some(i) => lemma_resolved_name_has_namespace(image.take(i)),
        None => lemma_resolved_name_has_namespace(image),
    }
}

/// Law: a reference with no `:` and no `/` resolves to the default namespace
/// prefixed to the reference, with tag `latest`.
pub proof fn lemma_bare_reference(image: Seq<char>)
    requires
        forall|i: int| 0 <= i < image.len() ==> image[i] != ':',
        forall|i: int| 0 <= i < image.len() ==> image[i] != '/',
    ensures
        spec_repo_name(image) == "library/"@ + image,
        spec_repo_tag(image) == "latest"@,
{
    lemma_first_index_of_none(image, ':');
    assert(!has_char(image, '/'));
}

/// Law: a reference whose name part carries a namespace and whose tag is
/// explicit keeps both verbatim: the name is everything before the first `:`
/// and the tag everything after it.
pub proof fn lemma_qualified_reference(image: Seq<char>, i: int)
    requires
        is_first_index_of(image, ':', i),
        has_char(image.take(i), '/'),
        image[0] != '/',
    ensures
        spec_repo_name(image) == image.take(i),
        spec_repo_tag(image) == image.skip(i + 1),
{
    lemma_first_index_of_some(image, ':', i);
}

} // verus!
