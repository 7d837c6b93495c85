//! What is posted for an activity: for each message its colour, its text
//! and its fields.

use crate::annict::{ActivityItem, Episode, RatingState, Record, Review, Status};
use vstd::prelude::*;

verus! {

/// A named value in a message.
#[derive(Debug, Clone, PartialEq, Eq)]
pub struct Field {
    pub name: String,
    pub value: String,
    pub inline: bool,
}

pub struct FieldView {
    pub name: Seq<char>,
    pub value: Seq<char>,
    pub inline: bool,
}

impl View for Field {
    type V = FieldView;

    open spec fn view(&self) -> FieldView {
        FieldView { name: self.name@, value: self.value@, inline: self.inline }
    }
}

/// One message about an activity.
#[derive(Debug, Clone, PartialEq, Eq)]
pub struct Notice {
    /// The colour of the message's frame, as `0xRRGGBB`.
    pub colour: u32,
    pub description: Option<String>,
    pub fields: Vec<Field>,
}

pub struct NoticeView {
    pub colour: u32,
    pub description: Option<Seq<char>>,
    pub fields: Seq<FieldView>,
}

impl View for Notice {
    type V = NoticeView;

    open spec fn view(&self) -> NoticeView {
        NoticeView {
            colour: self.colour,
            description: match self.description {
                Some(d) => Some(d@),
                None => None,
            },
            fields: Seq::new(self.fields@.len(), |i: int| self.fields@[i]@),
        }
    }
}

/// The views of a list of messages.
pub open spec fn views_of(notices: Seq<Notice>) -> Seq<NoticeView> {
    Seq::new(notices.len(), |i: int| notices[i]@)
}

/// The longest review text that a message shows, in characters.
pub const BODY_LIMIT: usize = 1024;

/// The digit for `d`, which is below ten.
pub open spec fn digit_char(d: nat) -> char {
    if d == 0 {
        '0'
    } else if d == 1 {
        '1'
    } else if d == 2 {
        '2'
    } else if d == 3 {
        '3'
    } else if d == 4 {
        '4'
    } else if d == 5 {
        '5'
    } else if d == 6 {
        '6'
    } else if d == 7 {
        '7'
    } else if d == 8 {
        '8'
    } else {
        '9'
    }
}

/// The digits of `n` in base ten, without leading zeros.
pub open spec fn digits_of(n: nat) -> Seq<char>
    decreases n,
{
    if n < 10 {
        seq![digit_char(n)]
    } else {
        digits_of(n / 10).push(digit_char(n % 10))
    }
}

/// `n` in base ten, with `-` in front where it is negative.
pub open spec fn decimal_text(n: int) -> Seq<char> {
    if n < 0 {
        seq!['-'] + digits_of((-n) as nat)
    } else {
        digits_of(n as nat)
    }
}

/// The digit for `d` as a text of its own.
fn digit_text(d: u32) -> (text: &'static str)
    requires
        d < 10,
    ensures
        text@ == seq![digit_char(d as nat)],
{
    proof {
        reveal_strlit("0");
        reveal_strlit("1");
        reveal_strlit("2");
        reveal_strlit("3");
        reveal_strlit("4");
        reveal_strlit("5");
        reveal_strlit("6");
        reveal_strlit("7");
        reveal_strlit("8");
        reveal_strlit("9");
    }
    let text = if d == 0 {
        "0"
    } else if d == 1 {
        "1"
    } else if d == 2 {
        "2"
    } else if d == 3 {
        "3"
    } else if d == 4 {
        "4"
    } else if d == 5 {
        "5"
    } else if d == 6 {
        "6"
    } else if d == 7 {
        "7"
    } else if d == 8 {
        "8"
    } else {
        "9"
    };
    assert(text@ =~= seq![digit_char(d as nat)]);
    text
}

/// Writes the digits of `n` behind `text`.
fn append_digits(text: &mut String, n: u32)
    ensures
        final(text)@ == old(text)@ + digits_of(n as nat),
    decreases n,
{
    if n >= 10 {
        append_digits(text, n / 10);
    }
    text.append(digit_text(n % 10));
    assert(text@ =~= old(text)@ + digits_of(n as nat));
}

/// `n` in base ten.
pub fn number_text(n: i32) -> (text: String)
    ensures
        text@ == decimal_text(n as int),
{
    let mut text = String::new();
    if n < 0 {
        proof {
            reveal_strlit("-");
        }
        text.append("-");
        let size: u32 = if n == i32::MIN {
            2147483648
        } else {
            (-n) as u32
        };
        append_digits(&mut text, size);
        assert(text@ =~= decimal_text(n as int));
    } else {
        append_digits(&mut text, n as u32);
        assert(text@ =~= decimal_text(n as int));
    }
    text
}

/// The address of an account's page.
pub open spec fn profile_url_model(username: Seq<char>) -> Seq<char> {
    "https://annict.com/@"@ + username
}

/// The address of an account's page.
pub fn profile_url(username: &str) -> (url: String)
    ensures
        url@ == profile_url_model(username@),
{
    String::from_str("https://annict.com/@").concat(username)
}

/// The first line of a message about a work: its title, set off.
pub open spec fn title_line(title: Seq<char>) -> Seq<char> {
    "『**"@ + title + "**』"@
}

/// `text` with the episode's number on a line of its own: the number as the
/// feed writes it, else the plain number as `第n話`. Without either, `text`.
pub open spec fn with_number(text: Seq<char>, episode: Episode) -> Seq<char> {
    match episode.number_text {
        Some(number_text) => text + "\n"@ + number_text@,
        None => match episode.number {
            Some(number) => text + "\n第"@ + decimal_text(number as int) + "話"@,
            None => text,
        },
    }
}

/// Whether the episode has a number to show.
pub open spec fn has_number(episode: Episode) -> bool {
    episode.number_text is Some || episode.number is Some
}

/// `text` with the episode's title in brackets: behind the number where
/// there is one, else on a line of its own. Without a title, `text`.
pub open spec fn with_episode_title(text: Seq<char>, episode: Episode) -> Seq<char> {
    match episode.title {
        Some(title) => if has_number(episode) {
            text + "「"@ + title@ + "」"@
        } else {
            text + "\n「"@ + title@ + "」"@
        },
        None => text,
    }
}

/// `text` with the comment on a line of its own, where there is one that is
/// not empty.
pub open spec fn with_comment(text: Seq<char>, comment: Option<String>) -> Seq<char> {
    match comment {
        Some(comment) => if comment@.len() > 0 {
            text + "\n"@ + comment@
        } else {
            text
        },
        None => text,
    }
}

/// The text of the message about an episode's record.
pub open spec fn record_description(record: Record) -> Seq<char> {
    with_comment(
        with_episode_title(with_number(title_line(record.work.title@), record.episode), record.episode),
        record.comment,
    )
}

/// The colour of a rating, and that of `Average` where there is none.
pub open spec fn rating_colour(rating: Option<RatingState>) -> u32 {
    match rating {
        Some(rating) => rating.colour_code(),
        None => RatingState::Average.colour_code(),
    }
}

/// The message about an episode's record.
pub open spec fn record_notice(record: Record) -> NoticeView {
    NoticeView {
        colour: rating_colour(record.rating_state),
        description: Some(record_description(record)),
        fields: Seq::empty(),
    }
}

/// `fields` with one more for the rating, where there is one.
pub open spec fn with_rating(
    fields: Seq<FieldView>,
    name: Seq<char>,
    rating: Option<RatingState>,
) -> Seq<FieldView> {
    match rating {
        Some(rating) => fields.push(FieldView { name, value: rating.label(), inline: true }),
        None => fields,
    }
}

/// The start of `body` that a message shows.
pub open spec fn shown_body(body: Seq<char>) -> Seq<char> {
    if body.len() > BODY_LIMIT {
        body.subrange(0, BODY_LIMIT as int)
    } else {
        body
    }
}

/// The fields of the message about a review: the title, each rating that
/// was given, and the start of the text where there is one.
pub open spec fn review_fields(review: Review) -> Seq<FieldView> {
    let title = seq![FieldView { name: "タイトル"@, value: review.work.title@, inline: false }];
    let rated = with_rating(
        with_rating(
            with_rating(
                with_rating(
                    with_rating(title, "全体"@, review.rating_overall_state),
                    "映像"@,
                    review.rating_animation_state,
                ),
                "キャラクター"@,
                review.rating_character_state,
            ),
            "ストーリー"@,
            review.rating_story_state,
        ),
        "音楽"@,
        review.rating_music_state,
    );
    if review.body@.len() > 0 {
        rated.push(FieldView { name: "感想"@, value: shown_body(review.body@), inline: false })
    } else {
        rated
    }
}

/// The message about a review.
pub open spec fn review_notice(review: Review) -> NoticeView {
    NoticeView {
        colour: rating_colour(review.rating_overall_state),
        description: None,
        fields: review_fields(review),
    }
}

/// The message about a change of state.
pub open spec fn status_notice(status: Status) -> NoticeView {
    NoticeView {
        colour: status.state.colour_code(),
        description: Some(title_line(status.work.title@) + "\n"@ + status.state.label()),
        fields: Seq::empty(),
    }
}

/// The messages about an activity, in the order in which they are posted:
/// one for each record of a bundle, one for anything else.
pub open spec fn render_model(activity: ActivityItem) -> Seq<NoticeView> {
    match activity {
        ActivityItem::MultipleRecord(bundle) => Seq::new(
            bundle.records.edges@.len(),
            |i: int| record_notice(bundle.records.edges@[i].node),
        ),
        ActivityItem::Record(record) => seq![record_notice(record)],
        ActivityItem::Review(review) => seq![review_notice(review)],
        ActivityItem::Status(status) => seq![status_notice(status)],
    }
}

fn colour_of(rating: &Option<RatingState>) -> (colour: u32)
    ensures
        colour == rating_colour(*rating),
{
    match rating {
        Some(rating) => rating.to_colour(),
        None => RatingState::Average.to_colour(),
    }
}

/// The message about an episode's record.
pub fn render_record(record: &Record) -> (notice: Notice)
    ensures
        notice@ == record_notice(*record),
{
    let mut text = String::from_str("『**");
    text.append(record.work.title.as_str());
    text.append("**』");
    let mut numbered = false;
    match &record.episode.number_text {
        Some(number_text) => {
            text.append("\n");
            text.append(number_text.as_str());
            numbered = true;
        },
        None => match record.episode.number {
            Some(number) => {
                text.append("\n第");
                text.append(number_text(number).as_str());
                text.append("話");
                numbered = true;
            },
            None => {},
        },
    }
    match &record.episode.title {
        Some(title) => {
            if numbered {
                text.append("「");
            } else {
                text.append("\n「");
            }
            text.append(title.as_str());
            text.append("」");
        },
        None => {},
    }
    match &record.comment {
        Some(comment) => {
            if comment.as_str().unicode_len() > 0 {
                text.append("\n");
                text.append(comment.as_str());
            }
        },
        None => {},
    }
    let fields: Vec<Field> = Vec::new();
    let notice = Notice {
        colour: colour_of(&record.rating_state),
        description: Some(text),
        fields,
    };
    assert(notice@.fields =~= Seq::empty());
    notice
}

fn push_rating(fields: &mut Vec<Field>, name: &str, rating: &Option<RatingState>)
    ensures
        Seq::new(final(fields)@.len(), |i: int| final(fields)@[i]@) == with_rating(
            Seq::new(old(fields)@.len(), |i: int| old(fields)@[i]@),
            name@,
            *rating,
        ),
{
    match rating {
        Some(rating) => {
            fields.push(
                Field { name: String::from_str(name), value: rating.to_string(), inline: true },
            );
            assert(Seq::new(fields@.len(), |i: int| fields@[i]@) =~= Seq::new(
                old(fields)@.len(),
                |i: int| old(fields)@[i]@,
            ).push(FieldView { name: name@, value: rating.label(), inline: true }));
        },
        None => {},
    }
}

/// The message about a review.
pub fn render_review(review: &Review) -> (notice: Notice)
    ensures
        notice@ == review_notice(*review),
{
    let mut fields: Vec<Field> = Vec::new();
    fields.push(
        Field {
            name: String::from_str("タイトル"),
            value: review.work.title.clone(),
            inline: false,
        },
    );
    assert(Seq::new(fields@.len(), |i: int| fields@[i]@) =~= seq![
        FieldView { name: "タイトル"@, value: review.work.title@, inline: false },
    ]);
    push_rating(&mut fields, "全体", &review.rating_overall_state);
    push_rating(&mut fields, "映像", &review.rating_animation_state);
    push_rating(&mut fields, "キャラクター", &review.rating_character_state);
    push_rating(&mut fields, "ストーリー", &review.rating_story_state);
    push_rating(&mut fields, "音楽", &review.rating_music_state);
    let length = review.body.as_str().unicode_len();
    if length > 0 {
        let shown = if length > BODY_LIMIT {
            review.body.as_str().substring_char(0, BODY_LIMIT)
        } else {
            review.body.as_str()
        };
        let ghost before = Seq::new(fields@.len(), |i: int| fields@[i]@);
        fields.push(
            Field { name: String::from_str("感想"), value: String::from_str(shown), inline: false },
        );
        assert(Seq::new(fields@.len(), |i: int| fields@[i]@) =~= before.push(
            FieldView { name: "感想"@, value: shown_body(review.body@), inline: false },
        ));
    }
    Notice { colour: colour_of(&review.rating_overall_state), description: None, fields }
}

/// The message about a change of state.
pub fn render_status(status: &Status) -> (notice: Notice)
    ensures
        notice@ == status_notice(*status),
{
    let mut text = String::from_str("『**");
    text.append(status.work.title.as_str());
    text.append("**』");
    text.append("\n");
    text.append(status.state.to_string().as_str());
    let fields: Vec<Field> = Vec::new();
    let notice = Notice { colour: status.state.to_colour(), description: Some(text), fields };
    assert(notice@.fields =~= Seq::empty());
    notice
}

/// The messages to post about an activity, in their order: one for each
/// record of a bundle, one for anything else.
pub fn render(activity: &ActivityItem) -> (notices: Vec<Notice>)
    ensures
        views_of(notices@) == render_model(*activity),
{
    let mut notices: Vec<Notice> = Vec::new();
    match activity {
        ActivityItem::MultipleRecord(bundle) => {
            let n = bundle.records.edges.len();
            let mut i: usize = 0;
            while i < n
                invariant
                    n == bundle.records.edges@.len(),
                    0 <= i <= n,
                    notices@.len() == i,
                    forall|j: int|
                        0 <= j < i ==> (#[trigger] notices@[j])@ == record_notice(
                            bundle.records.edges@[j].node,
                        ),
                decreases n - i,
            {
                notices.push(render_record(&bundle.records.edges[i].node));
                i = i + 1;
            }
        },
        ActivityItem::Record(record) => {
            notices.push(render_record(record));
        },
        ActivityItem::Review(review) => {
            notices.push(render_review(review));
        },
        ActivityItem::Status(status) => {
            notices.push(render_status(status));
        },
    }
    assert(views_of(notices@) =~= render_model(*activity));
    notices
}

} // verus!
