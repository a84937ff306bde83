//! Turning a compilation outcome into the caller's result: on success the
//! document is serialized to page-description bytes; on failure every
//! diagnostic is reported, joined into one string in compiler order.

use vstd::prelude::*;
use vstd::string::*;

verus! {

#[verifier::external_type_specification]
#[verifier::external_body]
pub struct ExDocument(typst::model::Document);

/// The separator between joined diagnostic messages.
pub open spec fn newline() -> Seq<char> {
    "\n"@
}

/// The messages joined in order, one newline between each adjacent pair.
pub open spec fn join_spec(msgs: Seq<Seq<char>>) -> Seq<char>
    decreases msgs.len(),
{
    if msgs.len() == 0 {
        Seq::<char>::empty()
    } else if msgs.len() == 1 {
        msgs[0]
    } else {
        msgs[0] + newline() + join_spec(msgs.skip(1))
    }
}

/// Appending one message to the list appends it to the joined string,
/// after a newline unless the list was empty.
pub proof fn lemma_join_snoc(msgs: Seq<Seq<char>>, m: Seq<char>)
    ensures
        msgs.len() == 0 ==> join_spec(msgs.push(m)) == m,
        msgs.len() > 0 ==> join_spec(msgs.push(m)) == join_spec(msgs) + newline() + m,
    decreases msgs.len(),
{
    if msgs.len() == 0 {
        assert(msgs.push(m)[0] == m);
    } else {
        lemma_join_snoc(msgs.skip(1), m);
        assert(msgs.push(m).skip(1) =~= msgs.skip(1).push(m));
        assert(msgs.push(m)[0] == msgs[0]);
        if msgs.len() == 1 {
            assert(msgs.skip(1).len() == 0);
            assert(join_spec(msgs.push(m)) =~= msgs[0] + newline() + m);
            assert(join_spec(msgs) + newline() + m =~= msgs[0] + newline() + m);
        } else {
            assert(join_spec(msgs.push(m)) =~= msgs[0] + newline() + (join_spec(msgs.skip(1))
                + newline() + m));
            assert(join_spec(msgs) + newline() + m =~= msgs[0] + newline() + (join_spec(
                msgs.skip(1),
            ) + newline() + m));
        }
    }
}

/// How many newline characters `s` holds.
pub open spec fn newline_count(s: Seq<char>) -> nat
    decreases s.len(),
{
    if s.len() == 0 {
        0
    } else {
        (if s[0] == '\n' {
            1nat
        } else {
            0nat
        }) + newline_count(s.skip(1))
    }
}

/// Newline characters add up over concatenation.
pub proof fn lemma_newline_count_concat(a: Seq<char>, b: Seq<char>)
    ensures
        newline_count(a + b) == newline_count(a) + newline_count(b),
    decreases a.len(),
{
    if a.len() == 0 {
        assert(a + b =~= b);
    } else {
        assert((a + b)[0] == a[0]);
        assert((a + b).skip(1) =~= a.skip(1) + b);
        lemma_newline_count_concat(a.skip(1), b);
    }
}

/// Joining `k` messages, none of which itself holds a newline, yields
/// exactly `k - 1` newline separators: the joined string has exactly `k`
/// newline-separated segments, in message order.
pub proof fn lemma_join_segment_count(msgs: Seq<Seq<char>>)
    requires
        msgs.len() > 0,
        forall|k: int| 0 <= k < msgs.len() ==> newline_count(#[trigger] msgs[k]) == 0,
    ensures
        newline_count(join_spec(msgs)) == msgs.len() - 1,
    decreases msgs.len(),
{
    reveal_strlit("\n");
    if msgs.len() == 1 {
        assert(join_spec(msgs) == msgs[0]);
    } else {
        assert forall|k: int| 0 <= k < msgs.skip(1).len() implies newline_count(
            #[trigger] msgs.skip(1)[k],
        ) == 0 by {
            assert(msgs.skip(1)[k] == msgs[k + 1]);
        }
        lemma_join_segment_count(msgs.skip(1));
        assert(newline().len() == 1);
        assert(newline()[0] == '\n');
        assert(newline().skip(1) =~= Seq::<char>::empty());
        assert(newline_count(Seq::<char>::empty()) == 0);
        assert(newline_count(newline()) == 1);
        lemma_newline_count_concat(msgs[0], newline());
        lemma_newline_count_concat(msgs[0] + newline(), join_spec(msgs.skip(1)));
    }
}

/// A failure report is never empty: joining at least one message, the
/// first of them non-empty, yields a non-empty string.
pub proof fn lemma_join_nonempty(msgs: Seq<Seq<char>>)
    requires
        msgs.len() > 0,
        msgs[0].len() > 0,
    ensures
        join_spec(msgs).len() > 0,
{
}

/// Join the rendered diagnostics into one message, preserving their order,
/// with one newline between each adjacent pair.
pub fn join_diagnostics(msgs: &Vec<String>) -> (r: String)
    ensures
        r@ == join_spec(msgs.deep_view()),
{
    let ghost dv = msgs.deep_view();
    let mut out = String::new();
    let mut i: usize = 0;
    proof {
        assert(dv.take(0) =~= Seq::<Seq<char>>::empty());
    }
    while i < msgs.len()
        invariant
            i <= msgs@.len(),
            dv == msgs.deep_view(),
            dv.len() == msgs@.len(),
            out@ == join_spec(dv.take(i as int)),
        decreases msgs@.len() - i,
    {
        proof {
            assert(dv[i as int] == msgs@[i as int]@);
        }
        if i > 0 {
            out.append("\n");
        }
        out.append(msgs[i].as_str());
        proof {
            lemma_join_snoc(dv.take(i as int), dv[i as int]);
            assert(dv.take(i as int).push(dv[i as int]) =~= dv.take(i + 1));
            if i == 0 {
                assert(out@ =~= join_spec(dv.take(i + 1)));
            }
        }
        i = i + 1;
    }
    proof {
        assert(dv.take(msgs@.len() as int) =~= dv);
    }
    out
}

/// Relies on typst_pdf::pdf, with automatic page sizing and no metadata
/// override, and on pdf_writer::Pdf underneath it, whose output buffer
/// always begins with the header `%PDF`.
#[verifier::external_body]
fn pdf_bytes(doc: &typst::model::Document) -> (r: Vec<u8>)
    ensures
        r@.len() >= 4,
        r@[0] == 37u8,
        r@[1] == 80u8,
        r@[2] == 68u8,
        r@[3] == 70u8,
{
    typst_pdf::pdf(doc, typst::foundations::Smart::Auto, None)
}

/// Finish a compilation: a successful outcome is serialized to
/// page-description bytes (never empty, beginning with the format
/// signature); a failed one becomes a single error string joining every
/// rendered diagnostic, in order. Exactly one of the two is ever returned.
pub fn render_outcome(outcome: Result<typst::model::Document, Vec<String>>) -> (r: Result<
    Vec<u8>,
    String,
>)
    ensures
        outcome is Ok ==> (r matches Ok(bytes) && bytes@.len() >= 4 && bytes@[0] == 37u8
            && bytes@[1] == 80u8 && bytes@[2] == 68u8 && bytes@[3] == 70u8),
        outcome matches Err(msgs) ==> r matches Err(e) && e@ == join_spec(msgs.deep_view()),
        outcome matches Err(msgs) && msgs.deep_view().len() > 0 && msgs.deep_view()[0].len() > 0
            ==> (r matches Err(e) && e@.len() > 0),
{
    match outcome {
        Ok(doc) => Ok(pdf_bytes(&doc)),
        Err(msgs) => {
            proof {
                if msgs.deep_view().len() > 0 && msgs.deep_view()[0].len() > 0 {
                    lemma_join_nonempty(msgs.deep_view());
                }
            }
            Err(join_diagnostics(&msgs))
        },
    }
}

} // verus!
