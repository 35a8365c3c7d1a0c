//! Extraction of bot commands from a comment: one command with its arguments
//! per addressed line.

use crate::guard::{guard, guard_spec, is_privileged, Guard};
use crate::mention::{mention, starts_with_mention};
use crate::text::{
    find_whitespace, first_whitespace, is_whitespace, lemma_first_whitespace, line_spans, lines,
    slice, spans_cut, to_chars, Span,
};
use crate::webhook::{Webhook, WebhookView};
use vstd::prelude::*;

verus! {

/// A command addressed to a bot on one line of a comment.
#[derive(PartialEq, Debug)]
pub struct BotCommand {
    /// What stands between the mention and the first white space after it.
    pub command: String,
    /// Rest of the line after that white space; may be empty.
    pub args: String,
    /// Name of the bot that the line addresses.
    pub bot: String,
}

/// Mathematical value of a [`BotCommand`].
pub struct BotCommandView {
    pub command: Seq<char>,
    pub args: Seq<char>,
    pub bot: Seq<char>,
}

impl View for BotCommand {
    type V = BotCommandView;

    open spec fn view(&self) -> BotCommandView {
        BotCommandView { command: self.command@, args: self.args@, bot: self.bot@ }
    }
}

impl DeepView for BotCommand {
    type V = BotCommandView;

    open spec fn deep_view(&self) -> BotCommandView {
        self@
    }
}

impl Clone for BotCommand {
    fn clone(&self) -> (copy: Self)
        ensures
            copy@ == self@,
    {
        BotCommand {
            command: self.command.clone(),
            args: self.args.clone(),
            bot: self.bot.clone(),
        }
    }
}

/// The command that `line` gives to `bot`, if the line starts with the bot's
/// mention: what follows the mention, cut at its first white space, which
/// belongs to neither part. Without white space all of it is the command and
/// the arguments are empty.
pub open spec fn command_on_line(line: Seq<char>, bot: Seq<char>) -> Option<BotCommandView> {
    if mention(bot).is_prefix_of(line) {
        let rest = line.skip(mention(bot).len() as int);
        let cut = first_whitespace(rest) as int;
        Some(
            BotCommandView {
                command: rest.take(cut),
                args: if cut < rest.len() {
                    rest.skip(cut + 1)
                } else {
                    Seq::empty()
                },
                bot,
            },
        )
    } else {
        None
    }
}

/// `command_on_line` for a fixed bot.
pub open spec fn addressed_to(bot: Seq<char>) -> spec_fn(Seq<char>) -> Option<BotCommandView> {
    |line: Seq<char>| command_on_line(line, bot)
}

/// The commands that `lines` give to `bot`, in the order of the lines.
pub open spec fn commands_for(lines: Seq<Seq<char>>, bot: Seq<char>) -> Seq<BotCommandView> {
    lines.filter_map(addressed_to(bot))
}

/// `commands_for` for fixed lines.
pub open spec fn each_bot(lines: Seq<Seq<char>>) -> spec_fn(Seq<char>) -> Seq<BotCommandView> {
    |bot: Seq<char>| commands_for(lines, bot)
}

/// The commands in `text` for `bots`: bot by bot in the order of `bots`, and
/// for each bot line by line.
pub open spec fn parse_commands_spec(text: Seq<char>, bots: Seq<Seq<char>>) -> Seq<
    BotCommandView,
> {
    bots.flat_map(each_bot(lines(text)))
}

/// The command on the line `span` of `text` for `bot`, if the line addresses
/// it. `chars` and `name` hold the characters of `text` and of `bot`.
fn command_at(text: &str, chars: &Vec<char>, span: Span, bot: &String, name: &Vec<char>) -> (found:
    Option<BotCommand>)
    requires
        chars@ == text@,
        name@ == bot@,
        span.within(chars@.len()),
    ensures
        found.deep_view() == command_on_line(span.of(chars@), bot@),
{
    if !starts_with_mention(chars, span, name) {
        return None;
    }
    let from: usize = span.start + name.len() + 2;
    let cut: usize = find_whitespace(chars, from, span.end);
    let command = slice(text, from, cut);
    let args = if cut < span.end {
        slice(text, cut + 1, span.end)
    } else {
        String::new()
    };
    proof {
        let line = span.of(chars@);
        let rest = line.skip(mention(bot@).len() as int);
        assert(rest == chars@.subrange(from as int, span.end as int));
        assert(rest.take(cut - from) == chars@.subrange(from as int, cut as int));
        if cut < span.end {
            assert(rest.skip(cut - from + 1) == chars@.subrange(cut + 1, span.end as int));
        }
    }
    Some(BotCommand { command, args, bot: bot.clone() })
}

/// Reads the commands that `text` holds for `bots`.
///
/// Every line of `text` that starts with `@`, a bot's name and one space gives
/// one command for that bot: the rest of the line up to its first white
/// space, with what follows that white space as the arguments. The result
/// lists the commands bot by bot, in the order of `bots`, and for each bot in
/// the order of the lines. A line that addresses several of the bots gives
/// one command for each of them.
pub fn parse_commands(text: &str, bots: &Vec<String>) -> (commands: Vec<BotCommand>)
    ensures
        commands.deep_view() == parse_commands_spec(text@, bots.deep_view()),
{
    let chars = to_chars(text);
    let spans = line_spans(&chars);
    let ghost all = lines(text@);
    let ghost names = bots.deep_view();
    let mut commands: Vec<BotCommand> = Vec::new();
    let mut b: usize = 0;
    assert(names.take(0).flat_map(each_bot(all)) == Seq::<BotCommandView>::empty());
    while b < bots.len()
        invariant
            b <= bots.len(),
            chars@ == text@,
            all == lines(text@),
            names == bots.deep_view(),
            spans_cut(chars@, spans@, all),
            commands.deep_view() == names.take(b as int).flat_map(each_bot(all)),
        decreases bots.len() - b,
    {
        let bot = &bots[b];
        let name = to_chars(bot.as_str());
        let ghost before = commands.deep_view();
        let mut k: usize = 0;
        while k < spans.len()
            invariant
                k <= spans.len(),
                chars@ == text@,
                name@ == bot@,
                spans_cut(chars@, spans@, all),
                commands.deep_view() == before + all.take(k as int).filter_map(
                    addressed_to(bot@),
                ),
            decreases spans.len() - k,
        {
            let ghost so_far = commands.deep_view();
            let found = command_at(text, &chars, spans[k], bot, &name);
            proof {
                all.lemma_filter_map_take_succ(addressed_to(bot@), k as int);
            }
            if let Some(command) = found {
                let ghost value = command@;
                commands.push(command);
                assert(commands.deep_view() == so_far.push(value));
            }
            k += 1;
        }
        proof {
            assert(all.take(spans.len() as int) == all);
            names.lemma_flat_map_take_append(each_bot(all), b as int);
        }
        b += 1;
    }
    assert(names.take(bots.len() as int) == names);
    commands
}

/// The commands that an event gives to `bots`: those of its comment where the
/// guards let it pass, none otherwise.
pub open spec fn extract_commands_spec(webhook: WebhookView, bots: Seq<Seq<char>>) -> Seq<
    BotCommandView,
> {
    if guard_spec(webhook, bots) is Pass {
        parse_commands_spec(webhook.comment, bots)
    } else {
        Seq::empty()
    }
}

/// Extracts the commands that the comment of `webhook` gives to `bots`.
///
/// The result is empty when the author is one of the bots, when the comment
/// was deleted, and when the author is neither owner nor collaborator.
/// Otherwise it holds the commands of the comment, as `parse_commands` reads
/// them.
pub fn extract_commands(webhook: &Webhook, bots: &Vec<String>) -> (commands: Vec<BotCommand>)
    ensures
        commands.deep_view() == extract_commands_spec(webhook@, bots.deep_view()),
        bots.deep_view().contains(webhook@.author) ==> commands@.len() == 0,
        webhook@.action == "deleted"@ ==> commands@.len() == 0,
        !is_privileged(webhook@.author_association) ==> commands@.len() == 0,
{
    match guard(webhook, bots) {
        Guard::Pass => parse_commands(webhook.comment.as_str(), bots),
        _ => Vec::new(),
    }
}

/// Reading more lines only adds commands at the end.
proof fn lemma_lines_extend(
    lines: Seq<Seq<char>>,
    read: spec_fn(Seq<char>) -> Option<BotCommandView>,
    k: int,
    n: int,
)
    requires
        0 <= k <= n <= lines.len(),
    ensures
        lines.take(k).filter_map(read).is_prefix_of(lines.take(n).filter_map(read)),
    decreases n - k,
{
    if k < n {
        lemma_lines_extend(lines, read, k, n - 1);
        lines.lemma_filter_map_take_succ(read, n - 1);
    }
}

/// Asking more bots only adds commands at the end.
proof fn lemma_bots_extend(
    bots: Seq<Seq<char>>,
    ask: spec_fn(Seq<char>) -> Seq<BotCommandView>,
    i: int,
    n: int,
)
    requires
        0 <= i <= n <= bots.len(),
    ensures
        bots.take(i).flat_map(ask).is_prefix_of(bots.take(n).flat_map(ask)),
    decreases n - i,
{
    if i < n {
        lemma_bots_extend(bots, ask, i, n - 1);
        bots.lemma_flat_map_take_append(ask, n - 1);
    }
}

/// Where the command of line `line` for bot `bot` stands in the result: after
/// the commands of the bots before it and after the bot's own commands from
/// the lines before it.
pub open spec fn position(text: Seq<char>, bots: Seq<Seq<char>>, bot: int, line: int) -> int {
    (bots.take(bot).flat_map(each_bot(lines(text))).len() + lines(text).take(line).filter_map(
        addressed_to(bots[bot]),
    ).len()) as int
}

/// A line that addresses a listed bot gives that bot a command, which stands
/// in the result at `position`, among the commands of that bot.
pub proof fn law_addressed_line_gives_command(
    text: Seq<char>,
    bots: Seq<Seq<char>>,
    bot: int,
    line: int,
)
    requires
        0 <= bot < bots.len(),
        0 <= line < lines(text).len(),
        mention(bots[bot]).is_prefix_of(lines(text)[line]),
    ensures
        bots.take(bot).flat_map(each_bot(lines(text))).len() <= position(text, bots, bot, line)
            < bots.take(bot + 1).flat_map(each_bot(lines(text))).len()
            <= parse_commands_spec(text, bots).len(),
        Some(parse_commands_spec(text, bots)[position(text, bots, bot, line)])
            == command_on_line(lines(text)[line], bots[bot]),
{
    let all = lines(text);
    let read = addressed_to(bots[bot]);
    let ask = each_bot(all);
    all.lemma_filter_map_take_succ(read, line);
    lemma_lines_extend(all, read, line + 1, all.len() as int);
    assert(all.take(all.len() as int) == all);
    bots.lemma_flat_map_take_append(ask, bot);
    lemma_bots_extend(bots, ask, bot + 1, bots.len() as int);
    assert(bots.take(bots.len() as int) == bots);
    let own = all.filter_map(read);
    let at = all.take(line).filter_map(read).len() as int;
    assert(own[at] == all.take(line + 1).filter_map(read)[at]);
    let upto = bots.take(bot + 1).flat_map(ask);
    assert(upto[position(text, bots, bot, line)] == own[at]);
}

/// What the first `count` bots get is got from lines that address them.
proof fn lemma_commands_have_lines(text: Seq<char>, bots: Seq<Seq<char>>, count: int, at: int)
    requires
        0 <= count <= bots.len(),
        0 <= at < bots.take(count).flat_map(each_bot(lines(text))).len(),
    ensures
        exists|bot: int, line: int|
            0 <= bot < count && 0 <= line < lines(text).len() && #[trigger] command_on_line(
                lines(text)[line],
                bots[bot],
            ) == Some(bots.take(count).flat_map(each_bot(lines(text)))[at]),
    decreases count,
{
    let all = lines(text);
    let ask = each_bot(all);
    if count > 0 {
        bots.lemma_flat_map_take_append(ask, count - 1);
        let earlier = bots.take(count - 1).flat_map(ask);
        if at < earlier.len() {
            lemma_commands_have_lines(text, bots, count - 1, at);
        } else {
            let read = addressed_to(bots[count - 1]);
            let command = all.filter_map(read)[at - earlier.len()];
            all.lemma_filter_map_contains(read, command);
            let found = choose|found: Seq<char>|
                all.contains(found) && read(found) == Some(command);
            let line = choose|line: int| 0 <= line < all.len() && all[line] == found;
            assert(command_on_line(all[line], bots[count - 1]) == Some(command));
        }
    }
}

/// Every command in the result was given by a line to a listed bot: lines
/// that address none of the bots add nothing.
pub proof fn law_every_command_has_its_line(text: Seq<char>, bots: Seq<Seq<char>>, at: int)
    requires
        0 <= at < parse_commands_spec(text, bots).len(),
    ensures
        exists|bot: int, line: int|
            0 <= bot < bots.len() && 0 <= line < lines(text).len() && #[trigger] command_on_line(
                lines(text)[line],
                bots[bot],
            ) == Some(parse_commands_spec(text, bots)[at]),
{
    assert(bots.take(bots.len() as int) == bots);
    lemma_commands_have_lines(text, bots, bots.len() as int, at);
}

/// Two listed bots whose mentions both start the same line each get their
/// command from it, in the order of the bots.
pub proof fn law_overlapping_mentions_both_emit(
    text: Seq<char>,
    bots: Seq<Seq<char>>,
    first: int,
    second: int,
    line: int,
)
    requires
        0 <= first < second < bots.len(),
        0 <= line < lines(text).len(),
        mention(bots[first]).is_prefix_of(lines(text)[line]),
        mention(bots[second]).is_prefix_of(lines(text)[line]),
    ensures
        0 <= position(text, bots, first, line) < position(text, bots, second, line)
            < parse_commands_spec(text, bots).len(),
        Some(parse_commands_spec(text, bots)[position(text, bots, first, line)])
            == command_on_line(lines(text)[line], bots[first]),
        Some(parse_commands_spec(text, bots)[position(text, bots, second, line)])
            == command_on_line(lines(text)[line], bots[second]),
{
    law_addressed_line_gives_command(text, bots, first, line);
    law_addressed_line_gives_command(text, bots, second, line);
    lemma_bots_extend(bots, each_bot(lines(text)), first + 1, second);
}

/// A command holds no white space, and where arguments follow it, the first
/// white space after the mention stood between the two.
pub proof fn law_command_holds_no_white_space(line: Seq<char>, bot: Seq<char>)
    requires
        mention(bot).is_prefix_of(line),
    ensures
        command_on_line(line, bot) matches Some(found) && found.bot == bot && (forall|i: int|
            0 <= i < found.command.len() ==> !is_whitespace(found.command[i])) && ({
            ||| line == mention(bot) + found.command && found.args.len() == 0
            ||| exists|white: char|
                is_whitespace(white) && line == mention(bot) + found.command + seq![white]
                    + found.args
        }),
{
    let rest = line.skip(mention(bot).len() as int);
    let cut = first_whitespace(rest) as int;
    lemma_first_whitespace(rest);
    let found = command_on_line(line, bot)->0;
    assert(line == mention(bot) + rest);
    if cut < rest.len() {
        assert(rest == found.command + seq![rest[cut]] + found.args);
        assert(line == mention(bot) + found.command + seq![rest[cut]] + found.args);
    } else {
        assert(rest.take(cut) == rest);
    }
}

/// A line that holds nothing but a mention and one word without white space
/// gives that word as the command, with empty arguments.
pub proof fn law_command_without_arguments(bot: Seq<char>, word: Seq<char>)
    requires
        forall|i: int| 0 <= i < word.len() ==> !is_whitespace(word[i]),
    ensures
        command_on_line(mention(bot) + word, bot) == Some(
            BotCommandView { command: word, args: Seq::empty(), bot },
        ),
{
    let line = mention(bot) + word;
    assert(line.skip(mention(bot).len() as int) == word);
    lemma_first_whitespace(word);
    assert(word.take(word.len() as int) == word);
}

/// Two extractions from the same event for the same bots give the same
/// commands in the same order: the result depends on nothing else.
pub proof fn law_extraction_is_repeatable(
    webhook: Webhook,
    bots: Vec<String>,
    once: Vec<BotCommand>,
    again: Vec<BotCommand>,
)
    requires
        once.deep_view() == extract_commands_spec(webhook@, bots.deep_view()),
        again.deep_view() == extract_commands_spec(webhook@, bots.deep_view()),
    ensures
        once.deep_view() == again.deep_view(),
        once@.len() == again@.len(),
        forall|i: int| 0 <= i < once@.len() ==> once@[i]@ == again@[i]@,
{
    assert(once.deep_view().len() == once@.len());
    assert(again.deep_view().len() == again@.len());
    assert forall|i: int| 0 <= i < once@.len() implies once@[i]@ == again@[i]@ by {
        assert(once.deep_view()[i] == once@[i]@);
        assert(again.deep_view()[i] == again@[i]@);
    }
}

} // verus!
