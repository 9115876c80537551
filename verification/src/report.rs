//! An error and its causes written out as text, root cause first.

use vstd::prelude::*;
use vstd::string::StringExecFns;

verus! {

/// One link of a chain of errors: what it says, and the backtrace it carries
/// where it carries one.
pub struct Cause {
    pub message: String,
    pub backtrace: Option<String>,
}

impl View for Cause {
    type V = (Seq<char>, Option<Seq<char>>);

    open spec fn view(&self) -> (Seq<char>, Option<Seq<char>>) {
        (
            self.message@,
            match self.backtrace {
                Some(trace) => Some(trace@),
                None => None,
            },
        )
    }
}

/// The links of a chain, each by its view.
pub open spec fn chain_view(chain: Seq<Cause>) -> Seq<(Seq<char>, Option<Seq<char>>)> {
    chain.map_values(|cause: Cause| cause@)
}

/// The line of one link: `Caused: ` in front of every link but the first, then
/// the message, then `, at ` and the backtrace where there is one and it is
/// not empty, then a line break.
pub open spec fn cause_line(cause: (Seq<char>, Option<Seq<char>>), first: bool) -> Seq<char> {
    (if first {
        Seq::<char>::empty()
    } else {
        "Caused: "@
    }) + cause.0 + (match cause.1 {
        Some(trace) => if trace.len() > 0 {
            ", at "@ + trace
        } else {
            Seq::<char>::empty()
        },
        None => Seq::<char>::empty(),
    }) + "\n"@
}

/// `Error: ` followed by the lines of the first `count` links.
pub open spec fn chain_text(chain: Seq<(Seq<char>, Option<Seq<char>>)>, count: int) -> Seq<char>
    decreases count,
{
    if count <= 0 {
        "Error: "@
    } else {
        chain_text(chain, count - 1) + cause_line(chain[count - 1], count == 1)
    }
}

/// Writes the chain out in the order given.
pub fn format_chain(chain: &Vec<Cause>) -> (text: String)
    ensures
        text@ == chain_text(chain_view(chain@), chain@.len() as int),
{
    let mut text = String::from_str("Error: ");
    let mut i: usize = 0;
    while i < chain.len()
        invariant
            i <= chain.len(),
            text@ == chain_text(chain_view(chain@), i as int),
        decreases chain.len() - i,
    {
        let ghost before = text@;
        let ghost cause = chain_view(chain@)[i as int];
        if i > 0 {
            text.append("Caused: ");
        }
        text.append(chain[i].message.as_str());
        match &chain[i].backtrace {
            Some(trace) => {
                if !trace.as_str().is_empty() {
                    text.append(", at ");
                    text.append(trace.as_str());
                }
            },
            None => {},
        }
        text.append("\n");
        assert(text@ =~= before + cause_line(cause, i == 0));
        i = i + 1;
    }
    text
}

/// Turns a chain around.
pub fn reversed(chain: Vec<Cause>) -> (turned: Vec<Cause>)
    ensures
        turned@.len() == chain@.len(),
        chain_view(turned@) == chain_view(chain@).reverse(),
{
    let mut rest = chain;
    let mut turned: Vec<Cause> = Vec::new();
    while rest.len() > 0
        invariant
            rest@.len() <= chain@.len(),
            rest@ == chain@.take(rest@.len() as int),
            turned@.len() + rest@.len() == chain@.len(),
            forall|i: int|
                0 <= i < turned@.len() ==> turned@[i] == chain@[chain@.len() - 1 - i],
        decreases rest.len(),
    {
        let cause = rest.pop().unwrap();
        turned.push(cause);
    }
    assert(chain_view(turned@) =~= chain_view(chain@).reverse());
    turned
}

/// Writes an error out with its causes. `chain` starts at the error itself
/// and ends at its root cause; the text starts at the root cause and ends at
/// the error itself.
pub fn failure_to_string(chain: Vec<Cause>) -> (text: String)
    ensures
        text@ == chain_text(chain_view(chain@).reverse(), chain@.len() as int),
{
    let turned = reversed(chain);
    format_chain(&turned)
}

} // verus!
