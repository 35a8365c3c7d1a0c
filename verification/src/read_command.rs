//! Extraction of bot commands from a comment, word by word: every word on an
//! addressed line is a command of its own.

use crate::guard::{guard, guard_spec, is_privileged, Guard};
use crate::mention::{mention, starts_with_mention};
use crate::text::{find_char, first_index_of, line_spans, lines, slice, spans_cut, to_chars, Span};
use crate::webhook::{Webhook, WebhookView};
use vstd::prelude::*;

verus! {

/// One word addressed to a bot.
#[derive(PartialEq, Debug)]
pub struct BotCommand {
    /// The word.
    pub command: String,
    /// Name of the bot that the line addresses.
    pub bot: String,
}

/// Mathematical value of a [`BotCommand`].
pub struct BotCommandView {
    pub command: Seq<char>,
    pub bot: Seq<char>,
}

impl View for BotCommand {
    type V = BotCommandView;

    open spec fn view(&self) -> BotCommandView {
        BotCommandView { command: self.command@, bot: self.bot@ }
    }
}

impl DeepView for BotCommand {
    type V = BotCommandView;

    open spec fn deep_view(&self) -> BotCommandView {
        self@
    }
}

impl Clone for BotCommand {
    fn clone(&self) -> (copy: Self)
        ensures
            copy@ == self@,
    {
        BotCommand { command: self.command.clone(), bot: self.bot.clone() }
    }
}

/// `text` without the occurrences of `pattern`, which are looked for from
/// left to right and do not overlap.
pub open spec fn without(text: Seq<char>, pattern: Seq<char>) -> Seq<char>
    decreases text.len(),
{
    if text.len() == 0 {
        text
    } else if pattern.len() > 0 && pattern.is_prefix_of(text) {
        without(text.skip(pattern.len() as int), pattern)
    } else {
        seq![text[0]] + without(text.skip(1), pattern)
    }
}

/// The pieces of `text` between its spaces: one more piece than there are
/// spaces, empty where two spaces meet and where a space starts or ends the
/// text.
pub open spec fn split_at_spaces(text: Seq<char>) -> Seq<Seq<char>>
    decreases text.len(),
{
    let cut = first_index_of(text, ' ') as int;
    if cut >= text.len() {
        seq![text]
    } else {
        seq![text.take(cut)] + split_at_spaces(text.skip(cut + 1))
    }
}

/// Makes a command for `bot` of a word.
pub open spec fn word_for(bot: Seq<char>) -> spec_fn(Seq<char>) -> BotCommandView {
    |word: Seq<char>| BotCommandView { command: word, bot }
}

/// The commands that `line` gives to `bot`: where the line starts with the
/// bot's mention, the words of the line without its mentions; none otherwise.
pub open spec fn commands_on_line(line: Seq<char>, bot: Seq<char>) -> Seq<BotCommandView> {
    if mention(bot).is_prefix_of(line) {
        split_at_spaces(without(line, mention(bot))).map_values(word_for(bot))
    } else {
        Seq::empty()
    }
}

/// `commands_on_line` for a fixed bot.
pub open spec fn addressed_to(bot: Seq<char>) -> spec_fn(Seq<char>) -> Seq<BotCommandView> {
    |line: Seq<char>| commands_on_line(line, bot)
}

/// The commands that `lines` give to `bot`, in the order of the lines.
pub open spec fn commands_for(lines: Seq<Seq<char>>, bot: Seq<char>) -> Seq<BotCommandView> {
    lines.flat_map(addressed_to(bot))
}

/// `commands_for` for fixed lines.
pub open spec fn each_bot(lines: Seq<Seq<char>>) -> spec_fn(Seq<char>) -> Seq<BotCommandView> {
    |bot: Seq<char>| commands_for(lines, bot)
}

/// The commands in `text` for `bots`: bot by bot in the order of `bots`, for
/// each bot line by line, and on each line word by word.
pub open spec fn parse_commands_spec(text: Seq<char>, bots: Seq<Seq<char>>) -> Seq<
    BotCommandView,
> {
    bots.flat_map(each_bot(lines(text)))
}

/// The commands that an event gives to `bots`: those of its comment where the
/// guards let it pass, none otherwise.
pub open spec fn extract_commands_spec(webhook: WebhookView, bots: Seq<Seq<char>>) -> Seq<
    BotCommandView,
> {
    if guard_spec(webhook, bots) is Pass {
        parse_commands_spec(webhook.comment, bots)
    } else {
        Seq::empty()
    }
}

/// Copies the line `span` of `text` without the mentions of `name`.
fn strip_mentions(text: &str, chars: &Vec<char>, span: Span, name: &Vec<char>) -> (kept: String)
    requires
        chars@ == text@,
        span.within(chars@.len()),
    ensures
        kept@ == without(span.of(chars@), mention(name@)),
{
    let ghost pattern = mention(name@);
    let ghost line = span.of(chars@);
    let mut kept = String::new();
    let mut from: usize = span.start;
    let mut at: usize = span.start;
    while at < span.end
        invariant
            chars@ == text@,
            span.within(chars@.len()),
            span.start <= from <= at <= span.end,
            pattern == mention(name@),
            line == span.of(chars@),
            without(line, pattern) == kept@ + chars@.subrange(from as int, at as int) + without(
                chars@.subrange(at as int, span.end as int),
                pattern,
            ),
        decreases span.end - at,
    {
        let ghost rest = chars@.subrange(at as int, span.end as int);
        if starts_with_mention(chars, Span { start: at, end: span.end }, name) {
            kept.append(text.substring_char(from, at));
            at = at + name.len() + 2;
            from = at;
            proof {
                assert(rest.skip(pattern.len() as int) == chars@.subrange(
                    at as int,
                    span.end as int,
                ));
            }
        } else {
            at = at + 1;
            proof {
                assert(rest.skip(1) == chars@.subrange(at as int, span.end as int));
            }
        }
    }
    kept.append(text.substring_char(from, span.end));
    kept
}

/// Adds to `commands` one command for `bot` of every word of `words`.
fn push_words(words: &str, bot: &String, commands: &mut Vec<BotCommand>)
    ensures
        final(commands).deep_view() == old(commands).deep_view() + split_at_spaces(
            words@,
        ).map_values(word_for(bot@)),
{
    let ghost start_view = commands.deep_view();
    let ghost make = word_for(bot@);
    let chars = to_chars(words);
    let n: usize = chars.len();
    let mut from: usize = 0;
    let mut open: bool = true;
    let ghost mut done: Seq<Seq<char>> = Seq::empty();
    proof {
        assert(words@.skip(0) == words@);
    }
    while open
        invariant
            chars@ == words@,
            n == chars@.len(),
            from <= n,
            make == word_for(bot@),
            open ==> split_at_spaces(words@) == done + split_at_spaces(words@.skip(from as int)),
            !open ==> split_at_spaces(words@) == done,
            commands.deep_view() == start_view + done.map_values(make),
        decreases n - from + if open { 1nat } else { 0nat },
    {
        let cut: usize = find_char(&chars, from, n, ' ');
        let word = slice(words, from, cut);
        let ghost rest = words@.skip(from as int);
        let ghost before = commands.deep_view();
        let command = BotCommand { command: word, bot: bot.clone() };
        let ghost value = command@;
        commands.push(command);
        proof {
            assert(rest.take(cut - from) == words@.subrange(from as int, cut as int));
            done = done.push(rest.take(cut - from));
            assert(commands.deep_view() == before.push(value));
        }
        if cut == n {
            open = false;
        } else {
            proof {
                assert(rest.skip(cut - from + 1) == words@.skip(cut + 1));
            }
            from = cut + 1;
        }
    }
}

/// Reads the commands that `text` holds for `bots`, word by word.
///
/// Every line of `text` that starts with `@`, a bot's name and one space
/// addresses that bot. Such a line is taken without its mentions of the bot
/// and cut at every space; each piece is a command. The result lists the
/// commands bot by bot, in the order of `bots`, for each bot in the order of
/// the lines, and on each line in the order of the words.
pub fn parse_commands(text: &str, bots: &Vec<String>) -> (commands: Vec<BotCommand>)
    ensures
        commands.deep_view() == parse_commands_spec(text@, bots.deep_view()),
{
    let chars = to_chars(text);
    let spans = line_spans(&chars);
    let ghost all = lines(text@);
    let ghost names = bots.deep_view();
    let mut commands: Vec<BotCommand> = Vec::new();
    let mut b: usize = 0;
    assert(names.take(0).flat_map(each_bot(all)) == Seq::<BotCommandView>::empty());
    while b < bots.len()
        invariant
            b <= bots.len(),
            chars@ == text@,
            all == lines(text@),
            names == bots.deep_view(),
            spans_cut(chars@, spans@, all),
            commands.deep_view() == names.take(b as int).flat_map(each_bot(all)),
        decreases bots.len() - b,
    {
        let bot = &bots[b];
        let name = to_chars(bot.as_str());
        let ghost before = commands.deep_view();
        let mut k: usize = 0;
        while k < spans.len()
            invariant
                k <= spans.len(),
                chars@ == text@,
                name@ == bot@,
                spans_cut(chars@, spans@, all),
                commands.deep_view() == before + all.take(k as int).flat_map(addressed_to(bot@)),
            decreases spans.len() - k,
        {
            proof {
                all.lemma_flat_map_take_append(addressed_to(bot@), k as int);
            }
            if starts_with_mention(&chars, spans[k], &name) {
                let words = strip_mentions(text, &chars, spans[k], &name);
                push_words(words.as_str(), bot, &mut commands);
            }
            k += 1;
        }
        proof {
            assert(all.take(spans.len() as int) == all);
            names.lemma_flat_map_take_append(each_bot(all), b as int);
        }
        b += 1;
    }
    assert(names.take(bots.len() as int) == names);
    commands
}

/// Extracts the commands that the comment of `webhook` gives to `bots`, word
/// by word.
///
/// The result is empty when the author is one of the bots, when the comment
/// was deleted, and when the author is neither owner nor collaborator.
/// Otherwise it holds the commands of the comment, as `parse_commands` reads
/// them.
pub fn extract_commands(webhook: &Webhook, bots: &Vec<String>) -> (commands: Vec<BotCommand>)
    ensures
        commands.deep_view() == extract_commands_spec(webhook@, bots.deep_view()),
        bots.deep_view().contains(webhook@.author) ==> commands@.len() == 0,
        webhook@.action == "deleted"@ ==> commands@.len() == 0,
        !is_privileged(webhook@.author_association) ==> commands@.len() == 0,
{
    match guard(webhook, bots) {
        Guard::Pass => parse_commands(webhook.comment.as_str(), bots),
        _ => Vec::new(),
    }
}

} // verus!
