//! Image references.

use vstd::prelude::*;
use crate::text::{find_char, first_index, lemma_first_index, substring};

verus! {

/// The repository and tag of an image reference: split at its first `:`, or the
/// whole reference with tag `latest` when it holds no `:`.
pub open spec fn spec_split_image_ref(image: Seq<char>) -> (Seq<char>, Seq<char>) {
    let i = first_index(image, ':');
    if i < image.len() {
        (image.subrange(0, i as int), image.subrange(i as int + 1, image.len() as int))
    } else {
        (image, "latest"@)
    }
}

/// Splits an image reference into repository and tag.
pub fn split_image_ref(image: &str) -> (r: (String, String))
    ensures
        (r.0@, r.1@) == spec_split_image_ref(image@),
{
    proof {
        lemma_first_index(image@, ':');
    }
    let n = image.unicode_len();
    let i = find_char(image, ':');
    if i < n {
        (substring(image, 0, i), substring(image, i + 1, n))
    } else {
        assert(image@.subrange(0, n as int) =~= image@);
        (substring(image, 0, n), "latest".to_string())
    }
}

} // verus!
