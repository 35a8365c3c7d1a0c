//! How a line of a comment addresses a bot.

use crate::text::Span;
use vstd::prelude::*;

verus! {

/// The text that addresses `bot`: an at sign, the name, one space.
pub open spec fn mention(bot: Seq<char>) -> Seq<char> {
    seq!['@'] + bot + seq![' ']
}

/// Whether the line `span` of `chars` starts with the mention of `name`.
pub(crate) fn starts_with_mention(chars: &Vec<char>, span: Span, name: &Vec<char>) -> (found: bool)
    requires
        span.within(chars@.len()),
    ensures
        found == mention(name@).is_prefix_of(span.of(chars@)),
{
    let width: usize = span.end - span.start;
    if width < 2 || name.len() > width - 2 {
        return false;
    }
    if chars[span.start] != '@' {
        assert(mention(name@)[0] == '@');
        return false;
    }
    let mut i: usize = 0;
    while i < name.len()
        invariant
            span.within(chars@.len()),
            width == span.end - span.start,
            name.len() + 2 <= width,
            i <= name.len(),
            forall|j: int| 0 <= j < i ==> chars@[span.start + 1 + j] == name@[j],
        decreases name.len() - i,
    {
        if chars[span.start + 1 + i] != name[i] {
            assert(mention(name@)[1 + i] == name@[i as int]);
            return false;
        }
        i += 1;
    }
    let last: usize = span.start + 1 + name.len();
    if chars[last] != ' ' {
        assert(mention(name@)[1 + name.len()] == ' ');
        return false;
    }
    true
}

} // verus!
