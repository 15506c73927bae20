//! Encoding of `ResizeOpts` into the renderer's wire shape: a sequence of
//! named fields. The one invariant that matters is omission: an option left
//! `None` contributes no field at all (the renderer reads an absent field
//! differently from a present-but-null one), and a present option keeps its
//! value, variant included (a numeric height stays a number).

use vstd::prelude::*;

use crate::options::AnimationOption;
use crate::options::ResizeOpts;
use crate::options::Value;

verus! {

/// One field of the encoded form of a `ResizeOpts`.
#[derive(Debug, Clone)]
pub enum EncodedField {
    Width(Value),
    Height(Value),
    Animation(AnimationOption),
    Silent(bool),
}

/// The encoded form of `o`: the present fields, in the renderer's order,
/// each carrying the option's value unchanged; absent options contribute
/// nothing.
pub open spec fn encoded_fields(o: ResizeOpts) -> Seq<EncodedField> {
    (match o.width {
        Some(w) => seq![EncodedField::Width(w)],
        None => Seq::empty(),
    }) + (match o.height {
        Some(h) => seq![EncodedField::Height(h)],
        None => Seq::empty(),
    }) + (match o.animation {
        Some(a) => seq![EncodedField::Animation(a)],
        None => Seq::empty(),
    }) + (match o.silent {
        Some(s) => seq![EncodedField::Silent(s)],
        None => Seq::empty(),
    })
}

/// 1 for a present option, 0 for an absent one.
pub open spec fn present<T>(o: Option<T>) -> int {
    if o is Some {
        1
    } else {
        0
    }
}

/// Encodes resize options into their wire shape.
pub fn encode_resize_opts(o: ResizeOpts) -> (r: Vec<EncodedField>)
    ensures
        r@ == encoded_fields(o),
{
    let ghost g = o;
    let ResizeOpts { width, height, animation, silent } = o;
    let mut r: Vec<EncodedField> = Vec::new();
    if let Some(w) = width {
        r.push(EncodedField::Width(w));
    }
    if let Some(h) = height {
        r.push(EncodedField::Height(h));
    }
    if let Some(a) = animation {
        r.push(EncodedField::Animation(a));
    }
    if let Some(s) = silent {
        r.push(EncodedField::Silent(s));
    }
    proof {
        assert(r@ =~= encoded_fields(g));
    }
    r
}

/// The encoding omits what is absent and keeps what is present: the encoded
/// form has exactly one field per present option; an absent option has no
/// field of its kind anywhere in it; and a present option's field carries
/// the option's value unchanged, so the variant chosen for a dimension
/// survives encoding.
pub proof fn lemma_encoding_faithful(o: ResizeOpts)
    ensures
        encoded_fields(o).len() == present(o.width) + present(o.height) + present(o.animation)
            + present(o.silent),
        o.width is None ==> forall|i: int|
            0 <= i < encoded_fields(o).len() ==> !(#[trigger] encoded_fields(o)[i] is Width),
        o.height is None ==> forall|i: int|
            0 <= i < encoded_fields(o).len() ==> !(#[trigger] encoded_fields(o)[i] is Height),
        o.animation is None ==> forall|i: int|
            0 <= i < encoded_fields(o).len() ==> !(#[trigger] encoded_fields(o)[i] is Animation),
        o.silent is None ==> forall|i: int|
            0 <= i < encoded_fields(o).len() ==> !(#[trigger] encoded_fields(o)[i] is Silent),
        o.width matches Some(w) ==> encoded_fields(o)[0] == EncodedField::Width(w),
        o.height matches Some(h) ==> encoded_fields(o)[present(o.width)] == EncodedField::Height(
            h,
        ),
        o.animation matches Some(a) ==> encoded_fields(o)[present(o.width) + present(o.height)]
            == EncodedField::Animation(a),
        o.silent matches Some(s) ==> encoded_fields(o)[present(o.width) + present(o.height)
            + present(o.animation)] == EncodedField::Silent(s),
{
}

} // verus!
