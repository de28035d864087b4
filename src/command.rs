//! Classifies a message and builds the annotation record it describes.

use crate::clock::{
    local_to_utc_seconds, naive_seconds_of, now_seconds, parse_naive_seconds, DAY_SECONDS,
};
use crate::text::{
    is_ws, lemma_split_nonempty, lemma_split_with_delimiter, lemma_split_without_delimiter,
    split_trim, split_trimmed, strip_one, strip_tag, trim, trim_end, trim_start, trim_str, views,
};
use vstd::prelude::*;

verus! {

/// How a time is written in a message: date, then hour and minute on a
/// 24-hour clock, as in `2024-03-05 14:30`.
pub const TIME_FORMAT: &'static str = "%F %R";

/// An annotation: a title, its tags in the order written, and the instant it
/// refers to in milliseconds since the Unix epoch.
#[derive(Debug)]
pub struct Annotate {
    pub what: String,
    pub tags: Vec<String>,
    pub when: i64,
}

/// What a message asks for.
#[derive(Debug)]
pub enum Command {
    Help,
    Annotate(Annotate),
    Unrecognized,
}

/// The fields of a message: its pieces between periods, each trimmed.
pub open spec fn fields_of(message: Seq<char>) -> Seq<Seq<char>> {
    split_trim(message, '.')
}

/// The first field of a message with one leading copy of the bot's tag
/// stripped, trimmed again.
pub open spec fn head_of(message: Seq<char>, tag: Seq<char>) -> Seq<char> {
    trim(strip_one(fields_of(message)[0], tag))
}

/// The message asks for help.
pub open spec fn is_help(message: Seq<char>, tag: Seq<char>) -> bool {
    head_of(message, tag) == "help"@
}

/// The message is an annotation: not a request for help, and two fields or more.
pub open spec fn is_annotation(message: Seq<char>, tag: Seq<char>) -> bool {
    !is_help(message, tag) && fields_of(message).len() >= 2
}

/// The tags written in `raw`: its pieces between commas, each trimmed.
pub open spec fn tags_of(raw: Seq<char>) -> Seq<Seq<char>> {
    split_trim(raw, ',')
}

/// The time field of a message, where it has one.
pub open spec fn time_field_of(message: Seq<char>) -> Option<Seq<char>> {
    if fields_of(message).len() > 2 {
        Some(fields_of(message)[2])
    } else {
        None
    }
}

/// The view of an optional borrowed string.
pub open spec fn opt_view(when: Option<&String>) -> Option<Seq<char>> {
    match when {
        Some(s) => Some(s@),
        None => None,
    }
}

/// What holds of the instant `local` (in milliseconds) found for an optional
/// time text: none where the text is absent or does not read; where it reads,
/// whole seconds within a day of the wall-clock time read, or none where the
/// system's time zone has no single instant for it. Which of the two, and the
/// instant itself, depend on the zone, which no contract here names.
pub open spec fn local_instant_of(when: Option<Seq<char>>, local: Option<i64>) -> bool {
    match when {
        Some(s) => match naive_seconds_of(s, TIME_FORMAT@) {
            Some(n) => local matches Some(m) ==> {
                &&& m % 1000 == 0
                &&& (n - DAY_SECONDS) * 1000 < m < (n + DAY_SECONDS) * 1000
            },
            None => local is None,
        },
        None => local is None,
    }
}

/// The timestamp `t` resolved from an optional time text with the clock
/// reading `now` (in milliseconds): where the text is absent or does not
/// read, exactly `now`; where it reads, the instant the system's time zone
/// gives it (see `local_instant_of`), or `now` where there is none.
pub open spec fn resolved_at(when: Option<Seq<char>>, now: i64, t: i64) -> bool {
    match when {
        Some(s) => match naive_seconds_of(s, TIME_FORMAT@) {
            Some(n) => t == now || (t % 1000 == 0 && (n - DAY_SECONDS) * 1000 < t < (n
                + DAY_SECONDS) * 1000),
            None => t == now,
        },
        None => t == now,
    }
}

/// The instant, in milliseconds, that the time text `when` names in the
/// system's time zone.
fn local_instant(when: &Option<&String>) -> (r: Option<i64>)
    ensures
        local_instant_of(opt_view(*when), r),
{
    match *when {
        Some(s) => match parse_naive_seconds(s.as_str(), TIME_FORMAT) {
            Some(n) => match local_to_utc_seconds(n) {
                Some(u) => Some(u * 1000),
                None => None,
            },
            None => None,
        },
        None => None,
    }
}

/// The system clock, in whole seconds counted in milliseconds.
fn clock_millis() -> (r: i64)
    ensures
        r % 1000 == 0,
{
    now_seconds() * 1000
}

impl Annotate {
    /// The tags as sequences of characters.
    pub open spec fn tags_view(&self) -> Seq<Seq<char>> {
        views(self.tags@)
    }

    /// Title and tags are those written in `what` and `tags`.
    pub open spec fn built_from(&self, what: Seq<char>, tags: Seq<char>) -> bool {
        &&& self.what@ == trim(what)
        &&& self.tags_view() == tags_of(tags)
    }

    /// The record for a title and a comma-separated tag list, timed at the
    /// instant `local` where there is one, else at `now`.
    pub fn from_times(what: &str, tags: &str, local: Option<i64>, now: i64) -> (r: Annotate)
        ensures
            r.built_from(what@, tags@),
            r.when == (match local {
                Some(m) => m,
                None => now,
            }),
    {
        let when = match local {
            Some(m) => m,
            None => now,
        };
        Annotate { what: trim_str(what), tags: split_trimmed(tags, ','), when }
    }

    /// The record for a title, a comma-separated tag list and an optional
    /// time, with `now` (in milliseconds) as the current time. The time is
    /// read in the system's time zone; where it is absent, cannot be read, or
    /// names no single instant, `now` stands in its place.
    pub fn new_at(what: &String, tags: &String, when: &Option<&String>, now: i64) -> (r: Annotate)
        ensures
            r.built_from(what@, tags@),
            resolved_at(opt_view(*when), now, r.when),
    {
        let local = local_instant(when);
        Annotate::from_times(what.as_str(), tags.as_str(), local, now)
    }

    /// As `new_at`, with the system clock read where it is wanted: when the
    /// time is absent, cannot be read, or names no single instant. Either
    /// way the timestamp is whole seconds, counted in milliseconds.
    pub fn new(what: &String, tags: &String, when: &Option<&String>) -> (r: Annotate)
        ensures
            r.built_from(what@, tags@),
            r.when % 1000 == 0,
            exists|now: i64| now % 1000 == 0 && resolved_at(opt_view(*when), now, r.when),
    {
        let local = local_instant(when);
        let now = match local {
            Some(m) => m,
            None => clock_millis(),
        };
        let r = Annotate::from_times(what.as_str(), tags.as_str(), local, now);
        assert(now % 1000 == 0 && resolved_at(opt_view(*when), now, r.when));
        r
    }
}

/// The fields of `message` and its first field with the bot's tag stripped.
fn split_message(message: &String, bot_tag: &String) -> (r: (Vec<String>, String))
    ensures
        views(r.0@) == fields_of(message@),
        r.0@.len() >= 1,
        r.1@ == head_of(message@, bot_tag@),
{
    let tokens = split_trimmed(message.as_str(), '.');
    proof {
        lemma_split_nonempty(message@, '.');
        assert(views(tokens@).len() == tokens@.len());
        assert(views(tokens@)[0] == tokens@[0]@);
    }
    let head = trim_str(strip_tag(tokens[0].as_str(), bot_tag.as_str()).as_str());
    (tokens, head)
}

/// The time field among the fields `tokens`, where there is one.
fn time_field(tokens: &Vec<String>) -> (r: Option<&String>)
    ensures
        opt_view(r) == (if tokens@.len() > 2 {
            Some(views(tokens@)[2])
        } else {
            None
        }),
{
    if tokens.len() > 2 {
        Some(&tokens[2])
    } else {
        None
    }
}

/// Reads a message addressed to the bot whose tag is `bot_tag`, with `now`
/// (in milliseconds) as the current time. Fields are separated by periods;
/// the first, once one leading copy of the tag is stripped, is `help` for a
/// request for help, else the title of an annotation whose second field lists
/// its tags and whose optional third gives its time.
pub fn parse_command_at(message: &String, bot_tag: &String, now: i64) -> (r: Command)
    ensures
        (r is Help) == is_help(message@, bot_tag@),
        (r is Annotate) == is_annotation(message@, bot_tag@),
        (r is Unrecognized) == (!is_help(message@, bot_tag@) && !is_annotation(message@, bot_tag@)),
        r matches Command::Annotate(a) ==> {
            &&& a.built_from(head_of(message@, bot_tag@), fields_of(message@)[1])
            &&& resolved_at(time_field_of(message@), now, a.when)
        },
{
    let (tokens, head) = split_message(message, bot_tag);
    if head == "help".to_owned() {
        Command::Help
    } else if tokens.len() >= 2 {
        let when = time_field(&tokens);
        proof {
            assert(views(tokens@)[1] == tokens@[1]@);
        }
        Command::Annotate(Annotate::new_at(&head, &tokens[1], &when, now))
    } else {
        Command::Unrecognized
    }
}

/// As `parse_command_at`, with the system clock read where an annotation
/// needs it.
pub fn parse_command(message: &String, bot_tag: &String) -> (r: Command)
    ensures
        (r is Help) == is_help(message@, bot_tag@),
        (r is Annotate) == is_annotation(message@, bot_tag@),
        (r is Unrecognized) == (!is_help(message@, bot_tag@) && !is_annotation(message@, bot_tag@)),
        r matches Command::Annotate(a) ==> {
            &&& a.built_from(head_of(message@, bot_tag@), fields_of(message@)[1])
            &&& a.when % 1000 == 0
            &&& exists|now: i64| now % 1000 == 0 && resolved_at(time_field_of(message@), now, a.when)
        },
{
    let (tokens, head) = split_message(message, bot_tag);
    if head == "help".to_owned() {
        Command::Help
    } else if tokens.len() >= 2 {
        let when = time_field(&tokens);
        proof {
            assert(views(tokens@)[1] == tokens@[1]@);
        }
        Command::Annotate(Annotate::new(&head, &tokens[1], &when))
    } else {
        Command::Unrecognized
    }
}

/// A message has at least one field, and it has fewer than two exactly when
/// it holds no period.
pub proof fn lemma_field_count(message: Seq<char>)
    ensures
        fields_of(message).len() >= 1,
        (fields_of(message).len() < 2) == !message.contains('.'),
{
    lemma_split_nonempty(message, '.');
    if message.contains('.') {
        lemma_split_with_delimiter(message, '.');
    } else {
        lemma_split_without_delimiter(message, '.');
    }
}

/// A message with a single field (no period) whose text, once one leading
/// copy of the tag is stripped and it is trimmed, is not `help`, is neither a request for help
/// nor an annotation.
pub proof fn law_single_field_unrecognized(message: Seq<char>, tag: Seq<char>)
    requires
        message.len() > 0,
        !message.contains('.'),
        trim(strip_one(trim(message), tag)) != "help"@,
    ensures
        fields_of(message).len() == 1,
        !is_help(message, tag),
        !is_annotation(message, tag),
{
    lemma_split_without_delimiter(message, '.');
    assert(fields_of(message) =~= seq![trim(message)]);
}

/// `help` asks for help whatever the bot's tag, so long as stripping the tag
/// leaves it whole: the tag is empty or does not begin the word.
pub proof fn law_help_with_any_tag(tag: Seq<char>)
    requires
        !(tag.len() > 0 && tag.len() <= 4 && "help"@.subrange(0, tag.len() as int) == tag),
    ensures
        is_help("help"@, tag),
{
    reveal_strlit("help");
    let h = "help"@;
    assert(!h.contains('.')) by {
        assert(h[0] != '.' && h[1] != '.' && h[2] != '.' && h[3] != '.');
    }
    lemma_split_without_delimiter(h, '.');
    assert(!is_ws(h[0]));
    assert(trim_start(h) == h);
    assert(h.last() == 'p');
    assert(trim_end(h) == h);
    assert(fields_of(h) =~= seq![h]);
    assert(strip_one(h, tag) == h);
}

/// Building a record twice from the same title and tag text gives the same
/// title and the same tags; only the time may differ.
pub proof fn law_build_idempotent(a: Annotate, b: Annotate, what: Seq<char>, tags: Seq<char>)
    requires
        a.built_from(what, tags),
        b.built_from(what, tags),
    ensures
        a.what@ == b.what@,
        a.tags_view() == b.tags_view(),
{
}

} // verus!
