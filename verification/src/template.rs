//! The synthesized source: one virtual text file made of a fixed prologue
//! (page sizing and text size directives) followed by the caller's expression
//! between math-mode delimiters, and the joining of diagnostic messages.

use vstd::prelude::*;
use vstd::string::StringExecFns;

verus! {

/// The fixed directives that precede the expression: an auto-sized page with
/// a small margin, and a fixed base text size.
pub open spec fn prologue() -> Seq<char> {
    "#set page(width: auto, height: auto, margin: 0.5em)\n#set text(size: 16pt)\n"@
}

/// The complete synthesized source for one expression: the prologue, then the
/// expression between math-mode delimiters.
pub open spec fn wrapped_source(expr: Seq<char>) -> Seq<char> {
    prologue() + "$"@ + expr + "$"@
}

/// Builds the text of the synthesized source file for one math expression.
/// The expression is embedded verbatim: no escaping and no validation, so any
/// syntax error in it surfaces later as a compiler diagnostic.
pub fn wrap_expression(expression: &str) -> (r: String)
    ensures
        r@ == wrapped_source(expression@),
{
    let mut text = String::from_str(
        "#set page(width: auto, height: auto, margin: 0.5em)\n#set text(size: 16pt)\n",
    );
    text.append("$");
    text.append(expression);
    text.append("$");
    text
}

/// The given messages joined in order with `"; "` between neighbours.
pub open spec fn joined(msgs: Seq<Seq<char>>) -> Seq<char>
    decreases msgs.len(),
{
    if msgs.len() == 0 {
        Seq::empty()
    } else if msgs.len() == 1 {
        msgs[0]
    } else {
        msgs[0] + "; "@ + joined(msgs.drop_first())
    }
}

/// Appending one more message extends the joined text at its end, with a
/// separator whenever the list was not empty before.
proof fn lemma_joined_push(msgs: Seq<Seq<char>>, m: Seq<char>)
    ensures
        joined(msgs.push(m)) == if msgs.len() == 0 {
            m
        } else {
            joined(msgs) + "; "@ + m
        },
    decreases msgs.len(),
{
    let pushed = msgs.push(m);
    if msgs.len() == 0 {
        assert(pushed.len() == 1);
        assert(pushed[0] == m);
    } else if msgs.len() == 1 {
        assert(pushed.len() == 2);
        assert(pushed[0] == msgs[0]);
        assert(pushed.drop_first() =~= seq![m]);
        assert(joined(pushed.drop_first()) == m);
    } else {
        assert(pushed.drop_first() =~= msgs.drop_first().push(m));
        lemma_joined_push(msgs.drop_first(), m);
        if msgs.drop_first().len() == 0 {
        } else {
            assert(joined(pushed) == msgs[0] + "; "@ + (joined(msgs.drop_first()) + "; "@ + m));
            assert(joined(msgs) + "; "@ + m == (msgs[0] + "; "@ + joined(msgs.drop_first()))
                + "; "@ + m);
            assert(msgs[0] + "; "@ + (joined(msgs.drop_first()) + "; "@ + m) =~= (msgs[0] + "; "@
                + joined(msgs.drop_first())) + "; "@ + m);
        }
    }
}

/// Joins the diagnostic messages with `"; "`, preserving their order.
pub fn join_messages(msgs: &Vec<String>) -> (r: String)
    ensures
        r@ == joined(msgs@.map_values(|m: String| m@)),
{
    let ghost views = msgs@.map_values(|m: String| m@);
    let mut out = String::new();
    let mut i: usize = 0;
    while i < msgs.len()
        invariant
            i <= msgs.len(),
            views == msgs@.map_values(|m: String| m@),
            out@ == joined(views.take(i as int)),
        decreases msgs.len() - i,
    {
        if i > 0 {
            out.append("; ");
        }
        out.append(msgs[i].as_str());
        proof {
            assert(views.take(i as int).push(views[i as int]) =~= views.take(i + 1 as int));
            lemma_joined_push(views.take(i as int), views[i as int]);
        }
        i = i + 1;
    }
    proof {
        assert(views.take(msgs@.len() as int) =~= views);
    }
    out
}

/// A joined error text is never empty when the first message is not.
pub proof fn lemma_joined_nonempty(msgs: Seq<Seq<char>>)
    requires
        msgs.len() > 0,
        msgs[0].len() > 0,
    ensures
        joined(msgs).len() > 0,
{
    if msgs.len() > 1 {
        assert(joined(msgs) == msgs[0] + "; "@ + joined(msgs.drop_first()));
    }
}

} // verus!
