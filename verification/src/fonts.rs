//! The font set: every face parsed out of the fixed bundled font binaries,
//! together with the compiler's searchable metadata index over them.
//!
//! Parsing, indexing and the binaries themselves belong to the outside
//! typesetting stack; this module drives them and owns the resulting cache.
//! Positional face lookup — the one question the compiler keeps asking at
//! layout time — is answered by verified code.

use vstd::prelude::*;

verus! {

#[verifier::external_type_specification]
#[verifier::external_body]
pub struct ExFont(typst::text::Font);

#[verifier::external_type_specification]
#[verifier::external_body]
pub struct ExFontBook(typst::text::FontBook);

/// How many font faces one font binary yields: a single binary may embed
/// several faces (a collection file). The outcome depends on the bytes
/// alone.
pub uninterp spec fn face_count(data: Seq<u8>) -> nat;

/// How many faces a sequence of font binaries yields in all.
pub open spec fn total_face_count(datas: Seq<Seq<u8>>) -> nat
    decreases datas.len(),
{
    if datas.len() == 0 {
        0
    } else {
        face_count(datas[0]) + total_face_count(datas.skip(1))
    }
}

proof fn lemma_total_face_count_snoc(datas: Seq<Seq<u8>>, d: Seq<u8>)
    ensures
        total_face_count(datas.push(d)) == total_face_count(datas) + face_count(d),
    decreases datas.len(),
{
    if datas.len() == 0 {
        assert(datas.push(d)[0] == d);
        assert(datas.push(d).skip(1) =~= Seq::<Seq<u8>>::empty());
        assert(total_face_count(Seq::<Seq<u8>>::empty()) == 0);
    } else {
        assert(datas.push(d)[0] == datas[0]);
        assert(datas.push(d).skip(1) =~= datas.skip(1).push(d));
        lemma_total_face_count_snoc(datas.skip(1), d);
    }
}

/// Relies on typst_assets::fonts: hands out the statically bundled font
/// binaries, in bundle order.
#[verifier::external_body]
fn bundled_font_data() -> (r: Vec<&'static [u8]>) {
    typst_assets::fonts().collect()
}

/// Relies on typst::text::Font::iter: parses the faces embedded in one
/// font binary, dropping any that do not parse; deterministic in the bytes
/// alone.
#[verifier::external_body]
fn parse_faces(data: &'static [u8]) -> (r: Vec<typst::text::Font>)
    ensures
        r@.len() == face_count(data@),
{
    typst::text::Font::iter(typst::foundations::Bytes::from_static(data)).collect()
}

/// Relies on typst::text::FontBook::from_fonts: builds the family, style
/// and weight index over the given faces.
#[verifier::external_body]
fn make_book(fonts: &Vec<typst::text::Font>) -> (r: typst::text::FontBook) {
    typst::text::FontBook::from_fonts(fonts)
}

/// Relies on the Clone impl of typst::text::Font: a font is a shared handle
/// to immutable parsed data, and its clone is that same font.
pub assume_specification[ <typst::text::Font as Clone>::clone ](f: &typst::text::Font) -> (r:
    typst::text::Font)
    ensures
        r == *f,
;

/// The parsed font set: the metadata index and the ordered face list it
/// indexes into. Built once from the bundled binaries; read-only afterwards.
pub struct FontCache {
    pub book: typst::text::FontBook,
    pub fonts: Vec<typst::text::Font>,
}

impl FontCache {
    /// Parse each given font binary into its faces, kept in binary order,
    /// and index the combined face list: the cache holds exactly as many
    /// faces as the binaries yield in all.
    pub fn load_from(datas: Vec<&'static [u8]>) -> (c: FontCache)
        ensures
            c.fonts@.len() == total_face_count(datas.deep_view()),
    {
        let ghost dv = datas.deep_view();
        let mut fonts: Vec<typst::text::Font> = Vec::new();
        let mut i: usize = 0;
        proof {
            assert(dv.take(0) =~= Seq::<Seq<u8>>::empty());
        }
        while i < datas.len()
            invariant
                i <= datas@.len(),
                dv == datas.deep_view(),
                dv.len() == datas@.len(),
                fonts@.len() == total_face_count(dv.take(i as int)),
            decreases datas@.len() - i,
        {
            proof {
                assert(dv[i as int] == datas@[i as int]@);
            }
            let mut faces = parse_faces(datas[i]);
            fonts.append(&mut faces);
            proof {
                lemma_total_face_count_snoc(dv.take(i as int), dv[i as int]);
                assert(dv.take(i as int).push(dv[i as int]) =~= dv.take(i + 1));
            }
            i = i + 1;
        }
        proof {
            assert(dv.take(datas@.len() as int) =~= dv);
        }
        let book = make_book(&fonts);
        FontCache { book, fonts }
    }

    /// Parse every bundled font binary into faces, in bundle order, and
    /// index the combined face list. The bundle is fixed at build time and
    /// cannot be named in a contract, so the claim on the face list stands
    /// one call down, where the binaries are the argument.
    pub fn load() -> (c: FontCache) {
        Self::load_from(bundled_font_data())
    }

    /// Positional lookup into the face list: the face at `index`, or absent
    /// when `index` is out of range — never a failure.
    pub fn font(&self, index: usize) -> (r: Option<typst::text::Font>)
        ensures
            index < self.fonts@.len() ==> (r matches Some(f) && f == self.fonts@[index as int]),
            index >= self.fonts@.len() ==> r is None,
    {
        if index < self.fonts.len() {
            Some(self.fonts[index].clone())
        } else {
            None
        }
    }

    /// How many faces the cache holds.
    pub fn font_count(&self) -> (n: usize)
        ensures
            n == self.fonts@.len(),
    {
        self.fonts.len()
    }
}

} // verus!
