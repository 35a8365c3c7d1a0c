use github_comment::read_command::{extract_commands, parse_commands, BotCommand};
use github_comment::webhook::{Repository, Webhook};

fn bots(names: &[&str]) -> Vec<String> {
    names.iter().map(|name| name.to_string()).collect()
}

fn word(bot: &str, command: &str) -> BotCommand {
    BotCommand {
        command: command.to_string(),
        bot: bot.to_string(),
    }
}

fn event(action: &str, author: &str, association: &str, comment: &str) -> Webhook {
    Webhook {
        action: action.to_string(),
        comment: comment.to_string(),
        comment_id: "1".to_string(),
        author: author.to_string(),
        author_association: association.to_string(),
        issue_number: 3,
        repo: Repository {
            owner: "namespace".to_string(),
            name: "reponame".to_string(),
        },
    }
}

#[test]
fn read_command_test_parse_commands() {
    assert_eq!(
        parse_commands(
            "@bot test_command test2\r\n@bot2 command2 3\r\nthis is a reponame",
            &vec!["bot".to_string(), "bot2".to_string()]
        ),
        vec![
            BotCommand {
                command: "test_command".to_string(),
                bot: "bot".to_string()
            },
            BotCommand {
                command: "test2".to_string(),
                bot: "bot".to_string()
            },
            BotCommand {
                command: "command2".to_string(),
                bot: "bot2".to_string()
            },
            BotCommand {
                command: "3".to_string(),
                bot: "bot2".to_string()
            },
        ]
    );
}

#[test]
fn every_space_cuts_a_word() {
    assert_eq!(
        parse_commands("@bot  a  b ", &bots(&["bot"])),
        vec![
            word("bot", ""),
            word("bot", "a"),
            word("bot", ""),
            word("bot", "b"),
            word("bot", ""),
        ]
    );
    assert_eq!(parse_commands("@bot ", &bots(&["bot"])), vec![word("bot", "")]);
}

#[test]
fn later_mentions_on_the_line_are_dropped_too() {
    assert_eq!(
        parse_commands("@bot a @bot b", &bots(&["bot"])),
        vec![word("bot", "a"), word("bot", "b")]
    );
    assert_eq!(
        parse_commands("@bot a@bot b", &bots(&["bot"])),
        vec![word("bot", "ab")]
    );
    assert_eq!(
        parse_commands("@bot @bot @bot", &bots(&["bot"])),
        vec![word("bot", "@bot")]
    );
    assert_eq!(
        parse_commands("@bot x@bot", &bots(&["bot"])),
        vec![word("bot", "x@bot")]
    );
}

#[test]
fn words_come_bot_by_bot_then_line_by_line() {
    assert_eq!(
        parse_commands("@b one two\nnothing here\n@a three\n@b four", &bots(&["a", "b"])),
        vec![
            word("a", "three"),
            word("b", "one"),
            word("b", "two"),
            word("b", "four"),
        ]
    );
}

#[test]
fn unaddressed_lines_give_no_words() {
    assert_eq!(parse_commands("", &bots(&["bot"])), vec![]);
    assert_eq!(parse_commands("hello @bot run", &bots(&["bot"])), vec![]);
    assert_eq!(parse_commands("@bot", &bots(&["bot"])), vec![]);
    assert_eq!(parse_commands("@bot run", &bots(&[])), vec![]);
}

#[test]
fn words_beyond_ascii_are_cut_by_characters() {
    assert_eq!(
        parse_commands("@bö grüße ✓ ünd", &bots(&["bö"])),
        vec![word("bö", "grüße"), word("bö", "✓"), word("bö", "ünd")]
    );
}

#[test]
fn word_extraction_is_guarded() {
    let names = bots(&["bot"]);
    let comment = "@bot run fast";
    assert_eq!(
        extract_commands(&event("created", "someone", "OWNER", comment), &names),
        vec![word("bot", "run"), word("bot", "fast")]
    );
    assert_eq!(
        extract_commands(&event("created", "someone", "COLLABORATOR", comment), &names),
        vec![word("bot", "run"), word("bot", "fast")]
    );
    assert_eq!(
        extract_commands(&event("created", "bot", "OWNER", comment), &names),
        vec![]
    );
    assert_eq!(
        extract_commands(&event("deleted", "someone", "OWNER", comment), &names),
        vec![]
    );
    assert_eq!(
        extract_commands(&event("created", "someone", "MEMBER", comment), &names),
        vec![]
    );
}

fn with_std(text: &str, bots: &[String]) -> Vec<BotCommand> {
    let mut commands = Vec::new();
    for bot in bots {
        let mention = format!("@{} ", bot);
        for line in text.lines() {
            if line.starts_with(&mention) {
                for piece in line.replace(&mention, "").split(' ') {
                    commands.push(word(bot, piece));
                }
            }
        }
    }
    commands
}

#[test]
fn words_agree_with_the_standard_library() {
    let names = bots(&["bot", "b", "@b", ""]);
    let pieces = [
        "@bot ", "@b ", "@ ", "@@b ", "@bot", "a", " ", "  ", "\t", "\r", "\n", "\r\n", "ü", "@",
    ];
    let mut texts = vec![String::new()];
    for _ in 0..3 {
        let mut longer = Vec::new();
        for text in &texts {
            for piece in pieces {
                longer.push(format!("{}{}", text, piece));
            }
        }
        texts.extend(longer);
    }
    for text in &texts {
        assert_eq!(parse_commands(text, &names), with_std(text, &names), "{:?}", text);
    }
}
