use vstd::prelude::*;

use crate::settings::Image;
use crate::text::{
    decimal, digit_char, has_prefix, i32_decimal, lemma_split_join, lemma_split_nonempty,
    lemma_split_without_delimiter, same_text, signed_decimal, split, split_on, strip_prefix,
    u64_decimal,
};

verus! {

/// The link under which an image is shown.
pub open spec fn image_link(base: Seq<char>, image_id: Seq<char>, key: Seq<char>) -> Seq<char> {
    base + image_id + "?auth="@ + key
}

/// An image link that no cache has seen, told apart by `nonce`.
pub open spec fn busted_image_link(
    base: Seq<char>,
    image_id: Seq<char>,
    key: Seq<char>,
    nonce: nat,
) -> Seq<char> {
    image_link(base, image_id, key) + "&discord_fake="@ + decimal(nonce)
}

/// The request that asks the image service to rotate an image.
pub open spec fn rotate_link(rotate_url: Seq<char>, image_id: Seq<char>, angle: int) -> Seq<char> {
    rotate_url + "?id="@ + image_id + "&angle="@ + signed_decimal(angle)
}

/// The value of the authorization header for the image service.
pub open spec fn bearer(key: Seq<char>) -> Seq<char> {
    "Bearer "@ + key
}

/// The image identifier in a link that the image service serves from
/// `base`: what follows `base`, up to the first `?`. A link from elsewhere
/// names no image of the service.
pub open spec fn image_id_in(base: Seq<char>, url: Seq<char>) -> Option<Seq<char>> {
    if has_prefix(url, base) {
        Some(split_on(url.skip(base.len() as int), '?')[0])
    } else {
        None
    }
}

/// Reading an image link back: the identifier that went into it comes out,
/// whatever the key holds, as long as the identifier holds no `?`.
pub proof fn lemma_image_link_read_back(base: Seq<char>, image_id: Seq<char>, key: Seq<char>)
    requires
        !image_id.contains('?'),
    ensures
        image_id_in(base, image_link(base, image_id, key)) == Some(image_id),
{
    reveal_strlit("?auth=");
    let url = image_link(base, image_id, key);
    assert(url.take(base.len() as int) =~= base);
    let rest = "auth="@ + key;
    assert("?auth="@ =~= seq!['?'] + "auth="@) by {
        reveal_strlit("auth=");
    }
    assert(url.skip(base.len() as int) =~= image_id.push('?') + rest);
    lemma_split_join(image_id, rest, '?');
    lemma_split_without_delimiter(image_id, '?');
    lemma_split_nonempty(rest, '?');
}

/// The link under which the image `image_id` is shown.
pub fn image_link_for(settings: &Image, image_id: &str) -> (r: String)
    ensures
        r@ == image_link(settings.image_url@, image_id@, settings.key@),
{
    settings.image_url.clone().concat(image_id).concat("?auth=").concat(settings.key.as_str())
}

/// The link of `image_id`, made new by `nonce`.
pub fn cache_busted_link(settings: &Image, image_id: &str, nonce: u64) -> (r: String)
    ensures
        r@ == busted_image_link(settings.image_url@, image_id@, settings.key@, nonce as nat),
{
    image_link_for(settings, image_id).concat("&discord_fake=").concat(u64_decimal(nonce).as_str())
}

proof fn lemma_decimal_last(n: nat)
    ensures
        decimal(n).len() > 0,
        decimal(n).last() == digit_char(n % 10),
{
}

/// Relies on rand::random: any `u64` may come back.
#[verifier::external_body]
fn random_nonce() -> u64 {
    rand::random::<u64>()
}

/// A fresh link for `image_id` after the image has changed, so that no cache
/// shows the old picture: it differs from `current`.
pub fn refreshed_link(settings: &Image, image_id: &str, current: &str) -> (r: String)
    ensures
        r@ != current@,
        exists|n: nat| r@ == busted_image_link(settings.image_url@, image_id@, settings.key@, n),
{
    let nonce = random_nonce();
    let first = cache_busted_link(settings, image_id, nonce);
    if !same_text(first.as_str(), current) {
        return first;
    }
    // Moving the nonce by one changes its last digit.
    let other = if nonce == u64::MAX {
        nonce - 1
    } else {
        nonce + 1
    };
    let second = cache_busted_link(settings, image_id, other);
    proof {
        lemma_decimal_last(nonce as nat);
        lemma_decimal_last(other as nat);
        let d1 = decimal(nonce as nat);
        let d2 = decimal(other as nat);
        assert(first@[first@.len() - 1] == d1[d1.len() - 1]);
        assert(second@[second@.len() - 1] == d2[d2.len() - 1]);
        assert(d1[d1.len() - 1] != d2[d2.len() - 1]);
    }
    second
}

/// The request that rotates `image_id` by `angle` degrees.
pub fn rotate_request_url(settings: &Image, image_id: &str, angle: i32) -> (r: String)
    ensures
        r@ == rotate_link(settings.rotate_url@, image_id@, angle as int),
{
    settings.rotate_url.clone().concat("?id=").concat(image_id).concat("&angle=").concat(
        i32_decimal(angle).as_str(),
    )
}

/// The value of the authorization header that the image service expects.
pub fn authorization_value(key: &str) -> (r: String)
    ensures
        r@ == bearer(key@),
{
    String::from_str("Bearer ").concat(key)
}

/// The image identifier in a link that the image service serves from
/// `base`; `None` for a link from elsewhere.
pub fn image_id_from_link(base: &str, url: &str) -> (r: Option<String>)
    ensures
        r is Some <==> image_id_in(base@, url@) is Some,
        r matches Some(id) ==> image_id_in(base@, url@) == Some(id@),
{
    match strip_prefix(url, base) {
        None => None,
        Some(rest) => {
            let parts = split(rest.as_str(), '?');
            proof {
                lemma_split_nonempty(rest@, '?');
            }
            assert(parts@[0]@ == split_on(url@.skip(base@.len() as int), '?')[0]);
            Some(parts[0].clone())
        },
    }
}

} // verus!
