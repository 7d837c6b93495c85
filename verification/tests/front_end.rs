use annict_notify::annict::{
    ActivityItem, Episode, MultipleRecord, RatingState, Record, RecordConnection, RecordEdge,
    Review, Status, StatusState, Work,
};
use annict_notify::commands::{
    channel_reply, guild_only, link_reply, unknown_command, Command, Reply,
};
use annict_notify::flags::{Choice, NotifyFlag};
use annict_notify::notice::{
    number_text, profile_url, render, render_record, render_review, render_status, Field, Notice,
    BODY_LIMIT,
};
use annict_notify::polling::{LookupFailure, Sweep};
use annict_notify::sync::{
    backward_query, begin, forward_query, registration_query, Checkpoint, FeedQuery, Step,
};
use annict_notify::annict::{ActivityConnection, ActivityEdge, PageInfo};
use annict_notify::text::lowered_is;
use annict_notify::time::Timestamp;

fn record(number: Option<i32>, number_text: Option<&str>, title: Option<&str>) -> Record {
    Record {
        work: Work { title: "作品".to_string() },
        created_at: Timestamp::new(1, 0),
        comment: None,
        episode: Episode {
            number,
            number_text: number_text.map(|s| s.to_string()),
            title: title.map(|s| s.to_string()),
        },
        rating_state: None,
    }
}

fn review(body: &str) -> Review {
    Review {
        work: Work { title: "作品".to_string() },
        created_at: Timestamp::new(1, 0),
        body: body.to_string(),
        rating_overall_state: None,
        rating_animation_state: None,
        rating_character_state: None,
        rating_story_state: None,
        rating_music_state: None,
    }
}

fn field(name: &str, value: &str, inline: bool) -> Field {
    Field { name: name.to_string(), value: value.to_string(), inline }
}

fn flag(without_comment: bool, with_comment: bool, status: bool, record: bool, review: bool) -> NotifyFlag {
    NotifyFlag { without_comment, with_comment, status, record, review }
}

#[test]
fn record_with_number_text_and_title() {
    let notice = render_record(&record(Some(3), Some("第3話"), Some("はじまり")));
    assert_eq!(notice.description.unwrap(), "『**作品**』\n第3話「はじまり」");
    assert_eq!(notice.colour, 0xff6d00);
    assert!(notice.fields.is_empty());
}

#[test]
fn record_with_plain_number() {
    let notice = render_record(&record(Some(12), None, None));
    assert_eq!(notice.description.unwrap(), "『**作品**』\n第12話");
    let notice = render_record(&record(Some(-4), None, Some("x")));
    assert_eq!(notice.description.unwrap(), "『**作品**』\n第-4話「x」");
    let notice = render_record(&record(Some(0), None, None));
    assert_eq!(notice.description.unwrap(), "『**作品**』\n第0話");
    let notice = render_record(&record(Some(i32::MIN), None, None));
    assert_eq!(notice.description.unwrap(), "『**作品**』\n第-2147483648話");
}

#[test]
fn record_with_title_alone() {
    let notice = render_record(&record(None, None, Some("はじまり")));
    assert_eq!(notice.description.unwrap(), "『**作品**』\n「はじまり」");
}

#[test]
fn record_without_episode_details() {
    let notice = render_record(&record(None, None, None));
    assert_eq!(notice.description.unwrap(), "『**作品**』");
}

#[test]
fn record_with_comment_and_rating() {
    let mut r = record(Some(1), None, None);
    r.comment = Some("よかった".to_string());
    r.rating_state = Some(RatingState::Great);
    let notice = render_record(&r);
    assert_eq!(notice.description.unwrap(), "『**作品**』\n第1話\nよかった");
    assert_eq!(notice.colour, 0x00b0ff);
    r.comment = Some(String::new());
    let notice = render_record(&r);
    assert_eq!(notice.description.unwrap(), "『**作品**』\n第1話");
}

#[test]
fn review_with_all_ratings() {
    let mut r = review("感想文");
    r.rating_overall_state = Some(RatingState::Good);
    r.rating_animation_state = Some(RatingState::Great);
    r.rating_character_state = Some(RatingState::Average);
    r.rating_story_state = Some(RatingState::Bad);
    r.rating_music_state = Some(RatingState::Good);
    let notice = render_review(&r);
    assert_eq!(notice.colour, 0x00c853);
    assert_eq!(notice.description, None);
    assert_eq!(
        notice.fields,
        vec![
            field("タイトル", "作品", false),
            field("全体", "良い", true),
            field("映像", "とても良い", true),
            field("キャラクター", "普通", true),
            field("ストーリー", "良くない", true),
            field("音楽", "良い", true),
            field("感想", "感想文", false),
        ]
    );
}

#[test]
fn review_without_ratings_or_body() {
    let notice = render_review(&review(""));
    assert_eq!(notice.colour, 0xff6d00);
    assert_eq!(notice.fields, vec![field("タイトル", "作品", false)]);
}

#[test]
fn review_body_is_cut_at_the_limit() {
    assert_eq!(BODY_LIMIT, 1024);
    let long: String = "あ".repeat(1500);
    let notice = render_review(&review(&long));
    assert_eq!(notice.fields[1].value, "あ".repeat(1024));
    let exact: String = "い".repeat(1024);
    let notice = render_review(&review(&exact));
    assert_eq!(notice.fields[1].value, exact);
}

#[test]
fn status_message() {
    let status = Status {
        work: Work { title: "作品".to_string() },
        created_at: Timestamp::new(1, 0),
        state: StatusState::Watched,
    };
    let notice = render_status(&status);
    assert_eq!(
        notice,
        Notice { colour: 0x16a34a, description: Some("『**作品**』\n見た".to_string()), fields: vec![] }
    );
    assert_eq!(render(&ActivityItem::Status(status)), vec![notice]);
}

#[test]
fn bundle_gives_one_message_per_record() {
    let bundle = MultipleRecord {
        records: RecordConnection {
            edges: vec![
                RecordEdge { node: record(Some(1), None, None) },
                RecordEdge { node: record(Some(2), None, None) },
            ],
        },
        created_at: Timestamp::new(1, 0),
        work: Work { title: "作品".to_string() },
    };
    let notices = render(&ActivityItem::MultipleRecord(bundle));
    assert_eq!(notices.len(), 2);
    assert_eq!(notices[0].description.as_deref(), Some("『**作品**』\n第1話"));
    assert_eq!(notices[1].description.as_deref(), Some("『**作品**』\n第2話"));
    let empty = MultipleRecord {
        records: RecordConnection { edges: vec![] },
        created_at: Timestamp::new(1, 0),
        work: Work { title: "作品".to_string() },
    };
    assert!(render(&ActivityItem::MultipleRecord(empty)).is_empty());
}

#[test]
fn single_record_and_review_give_one_message() {
    let r = record(Some(1), None, None);
    assert_eq!(render(&ActivityItem::Record(r.clone())), vec![render_record(&r)]);
    let v = review("x");
    assert_eq!(render(&ActivityItem::Review(v.clone())), vec![render_review(&v)]);
}

#[test]
fn profile_address() {
    assert_eq!(profile_url("kei519"), "https://annict.com/@kei519");
}

#[test]
fn flag_bits() {
    assert_eq!(NotifyFlag::empty().bits(), 0);
    assert_eq!(NotifyFlag::all().bits(), 31);
    assert_eq!(NotifyFlag::default(), NotifyFlag::all());
    assert_eq!(flag(true, false, false, false, false).bits(), 1);
    assert_eq!(flag(false, true, false, false, false).bits(), 2);
    assert_eq!(flag(false, false, true, false, false).bits(), 4);
    assert_eq!(flag(false, false, false, true, false).bits(), 8);
    assert_eq!(flag(false, false, false, false, true).bits(), 16);
    for bits in 0..32 {
        assert_eq!(NotifyFlag::from_bits(bits).unwrap().bits(), bits);
    }
    assert_eq!(NotifyFlag::from_bits(32), None);
    assert_eq!(NotifyFlag::from_bits(-1), None);
    assert_eq!(NotifyFlag::from_bits(i32::MIN), None);
    assert_eq!(NotifyFlag::from_bits(10), Some(flag(false, true, false, true, false)));
    assert!(NotifyFlag::all().is_all());
    assert!(!flag(true, true, true, true, false).is_all());
}

#[test]
fn menu_choices() {
    assert_eq!(NotifyFlag::choice(&"with_comment".to_string()), Some(Choice::WithComment));
    assert_eq!(NotifyFlag::choice(&"record".to_string()), Some(Choice::Record));
    assert_eq!(NotifyFlag::choice(&"review".to_string()), Some(Choice::Review));
    assert_eq!(NotifyFlag::choice(&"without_comment".to_string()), Some(Choice::WithoutComment));
    assert_eq!(NotifyFlag::choice(&"status".to_string()), Some(Choice::Status));
    assert_eq!(NotifyFlag::choice(&"Status".to_string()), None);
    let chosen = NotifyFlag::empty().with(Choice::Record).with(Choice::Status);
    assert_eq!(chosen, flag(false, false, true, true, false));
    let chosen = NotifyFlag::empty().with(Choice::WithComment).with(Choice::WithoutComment).with(Choice::Review);
    assert_eq!(chosen, flag(true, true, false, false, true));
}

#[test]
fn selections_are_made_consistent() {
    // records without a word on comments: both kinds of comment
    assert_eq!(flag(false, false, false, true, false).normalized(), flag(true, true, false, true, false));
    // reviews with comments only: changes of state are dropped
    assert_eq!(flag(false, true, true, false, true).normalized(), flag(false, true, false, false, true));
    // records, both kinds of comment, changes of state: as selected
    assert_eq!(flag(true, true, true, true, false).normalized(), flag(true, true, true, true, false));
    // records without comment, changes of state: as selected
    assert_eq!(flag(true, false, true, true, false).normalized(), flag(true, false, true, true, false));
    // changes of state with "with comment": the latter is dropped
    assert_eq!(flag(false, true, true, false, false).normalized(), flag(false, false, true, false, false));
    assert_eq!(flag(true, true, true, false, false).normalized(), flag(true, false, true, false, false));
    // "without comment" alone: everything
    assert_eq!(flag(true, false, false, false, false).normalized(), flag(true, false, true, true, true));
    assert_eq!(flag(true, true, false, false, false).normalized(), NotifyFlag::all());
    // "with comment" alone: records and reviews
    assert_eq!(flag(false, true, false, false, false).normalized(), flag(false, true, false, true, true));
    // nothing: records and reviews
    assert_eq!(NotifyFlag::empty().normalized(), flag(false, false, false, true, true));
}

#[test]
fn flags_in_words() {
    assert_eq!(NotifyFlag::all().describe(), "全て");
    assert_eq!(flag(false, true, false, true, true).describe(), "エピソード記録(感想あり)・作品記録(感想あり)");
    assert_eq!(flag(true, false, true, true, false).describe(), "エピソード記録(感想なし)・ステータス更新");
    assert_eq!(flag(true, true, false, false, true).describe(), "作品記録");
    assert_eq!(flag(true, false, true, false, false).describe(), "ステータス更新");
    assert_eq!(flag(true, true, true, true, false).describe(), "エピソード記録・ステータス更新");
    assert_eq!(flag(true, false, true, true, true).describe(), "エピソード記録(感想なし)・作品記録(感想なし)・ステータス更新");
    assert_eq!(NotifyFlag::empty().describe(), "");
}

#[test]
fn commands_by_name() {
    assert_eq!(Command::parse(&"notify".to_string()), Some(Command::Notify));
    assert_eq!(Command::parse(&"annict".to_string()), Some(Command::Annict));
    assert_eq!(Command::parse(&"Annict".to_string()), None);
    assert_eq!(Command::Notify.name(), "notify");
    assert_eq!(Command::Annict.name(), "annict");
    assert_eq!(unknown_command("foo"), "不明なコマンド `foo` を受信");
}

#[test]
fn replies() {
    assert_eq!(
        link_reply("kei519", true),
        Reply {
            content: "ユーザー [kei519](<https://annict.com/@kei519>) と連携しました".to_string(),
            ephemeral: false
        }
    );
    assert_eq!(
        link_reply("kei519", false),
        Reply { content: "ユーザー kei519 は存在しません".to_string(), ephemeral: true }
    );
    assert_eq!(
        guild_only(true),
        Reply { content: "この操作はサーバー内で行ってください".to_string(), ephemeral: true }
    );
    assert!(!guild_only(false).ephemeral);
    assert_eq!(
        channel_reply("<#42>", &NotifyFlag::all()),
        Reply { content: "<#42> で 全て のアクティビティを通知します".to_string(), ephemeral: false }
    );
    assert_eq!(
        channel_reply("<#42>", &flag(true, true, false, true, false)).content,
        "<#42> で エピソード記録 のアクティビティを通知します"
    );
}

#[test]
fn lookup_failures() {
    assert_eq!(LookupFailure::classify("Unknown Member"), LookupFailure::UnknownMember);
    assert_eq!(LookupFailure::classify("unknown user"), LookupFailure::UnknownUser);
    assert_eq!(LookupFailure::classify("UNKNOWN GUILD"), LookupFailure::UnknownGuild);
    assert_eq!(LookupFailure::classify("Missing Access"), LookupFailure::Other);
    assert_eq!(LookupFailure::classify("unknown member "), LookupFailure::Other);
    assert_eq!(LookupFailure::classify(""), LookupFailure::Other);
    assert_eq!(LookupFailure::UnknownMember.next(), Sweep::NextSubscriber);
    assert_eq!(LookupFailure::UnknownUser.next(), Sweep::NextSubscriber);
    assert_eq!(LookupFailure::UnknownGuild.next(), Sweep::NextChannel);
    assert_eq!(LookupFailure::Other.next(), Sweep::Abort);
}

#[test]
fn text_without_regard_to_case() {
    assert!(lowered_is("HoUr", "hour"));
    assert!(lowered_is("", ""));
    assert!(!lowered_is("hour", "HOUR"));
    assert!(!lowered_is("hours", "hour"));
    assert!(!lowered_is("ÄB", "äb"));
    assert!(lowered_is("äB", "äb"));
    assert!(!lowered_is("@[`{", "`{@["));
}

#[test]
fn queries_of_a_run() {
    assert_eq!(
        registration_query("kei519"),
        FeedQuery { username: "kei519".to_string(), last: Some(1), after: None, before: None }
    );
    let checkpoint = Checkpoint { cursor: Some("c5".to_string()), time: Some(Timestamp::new(5, 0)) };
    assert_eq!(
        forward_query("kei519", &checkpoint),
        FeedQuery {
            username: "kei519".to_string(),
            last: None,
            after: Some("c5".to_string()),
            before: None
        }
    );
    let none = Checkpoint { cursor: None, time: None };
    assert_eq!(forward_query("kei519", &none).after, None);
    let item = ActivityItem::Status(Status {
        work: Work { title: "w".to_string() },
        created_at: Timestamp::new(8, 0),
        state: StatusState::Watching,
    });
    let forward = ActivityConnection {
        edges: vec![ActivityEdge { item, cursor: "c8".to_string() }],
        page_info: PageInfo { start_cursor: Some("c8".to_string()), end_cursor: Some("c8".to_string()) },
    };
    match begin(checkpoint, forward).unwrap() {
        Step::Fetch(walk) => assert_eq!(
            backward_query("kei519", &walk),
            FeedQuery {
                username: "kei519".to_string(),
                last: Some(1),
                after: None,
                before: Some("c8".to_string())
            }
        ),
        Step::Done(_) => panic!("no walk"),
    }
}

#[test]
fn numbers_in_base_ten() {
    assert_eq!(number_text(0), "0");
    assert_eq!(number_text(7), "7");
    assert_eq!(number_text(10), "10");
    assert_eq!(number_text(1905), "1905");
    assert_eq!(number_text(-1), "-1");
    assert_eq!(number_text(-120), "-120");
    assert_eq!(number_text(i32::MAX), "2147483647");
    assert_eq!(number_text(i32::MIN), "-2147483648");
    for n in [-1000, -99, -10, -9, 9, 99, 100, 101, 65536] {
        assert_eq!(number_text(n), n.to_string());
    }
}
