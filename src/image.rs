use vstd::prelude::*;

verus! {

/// The RGBA bytes of a sequence of 8-bit RGB pixels: each pixel's three
/// channels in order, then a fully opaque alpha of 255.
pub open spec fn rgba_of(pixels: Seq<(u8, u8, u8)>) -> Seq<u8>
    decreases pixels.len(),
{
    if pixels.len() == 0 {
        Seq::empty()
    } else {
        let p = pixels.last();
        rgba_of(pixels.drop_last()) + seq![p.0, p.1, p.2, 255u8]
    }
}

proof fn lemma_rgba_len(pixels: Seq<(u8, u8, u8)>)
    ensures
        rgba_of(pixels).len() == 4 * pixels.len(),
    decreases pixels.len(),
{
    if pixels.len() > 0 {
        lemma_rgba_len(pixels.drop_last());
    }
}

/// Byte `4 * i + c` of the RGBA buffer is channel `c` of pixel `i`, and
/// every fourth byte is the opaque alpha.
pub proof fn lemma_rgba_layout(pixels: Seq<(u8, u8, u8)>, i: int)
    requires
        0 <= i < pixels.len(),
    ensures
        rgba_of(pixels).len() == 4 * pixels.len(),
        rgba_of(pixels)[4 * i] == pixels[i].0,
        rgba_of(pixels)[4 * i + 1] == pixels[i].1,
        rgba_of(pixels)[4 * i + 2] == pixels[i].2,
        rgba_of(pixels)[4 * i + 3] == 255,
    decreases pixels.len(),
{
    lemma_rgba_len(pixels);
    lemma_rgba_len(pixels.drop_last());
    if i < pixels.len() - 1 {
        lemma_rgba_layout(pixels.drop_last(), i);
    }
}

/// Packs 8-bit RGB pixels, row-major, into the RGBA byte buffer that a
/// display texture or a PNG encoder takes.
pub fn rgba_buffer(pixels: &Vec<(u8, u8, u8)>) -> (r: Vec<u8>)
    requires
        4 * pixels@.len() <= usize::MAX,
    ensures
        r@ == rgba_of(pixels@),
{
    let mut out: Vec<u8> = Vec::new();
    let mut i: usize = 0;
    while i < pixels.len()
        invariant
            i <= pixels@.len(),
            4 * pixels@.len() <= usize::MAX,
            out@ == rgba_of(pixels@.subrange(0, i as int)),
        decreases pixels@.len() - i,
    {
        let p = pixels[i];
        proof {
            lemma_rgba_len(pixels@.subrange(0, i as int));
        }
        out.push(p.0);
        out.push(p.1);
        out.push(p.2);
        out.push(255u8);
        proof {
            let next = pixels@.subrange(0, i + 1);
            assert(next.drop_last() =~= pixels@.subrange(0, i as int));
            assert(out@ =~= rgba_of(next));
        }
        i = i + 1;
    }
    proof {
        assert(pixels@.subrange(0, pixels@.len() as int) =~= pixels@);
    }
    out
}

} // verus!
