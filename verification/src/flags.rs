//! Which kinds of activity a channel is notified of.

use vstd::prelude::*;

verus! {

/// The kinds of activity that a channel is notified of. Stored as a number,
/// each kind is one bit of it.
#[derive(Debug, Clone, Copy, PartialEq, Eq, Structural)]
pub struct NotifyFlag {
    /// Activities without a comment: bit 0.
    pub without_comment: bool,
    /// Activities with a comment: bit 1.
    pub with_comment: bool,
    /// Changes of state: bit 2.
    pub status: bool,
    /// Records of episodes: bit 3.
    pub record: bool,
    /// Reviews of works: bit 4.
    pub review: bool,
}

/// One of the choices that the selection menu offers.
#[derive(Debug, Clone, Copy, PartialEq, Eq, Structural)]
pub enum Choice {
    WithComment,
    Record,
    Review,
    WithoutComment,
    Status,
}

/// 1 where `flag` is set, else 0.
pub open spec fn bit(flag: bool) -> int {
    if flag {
        1
    } else {
        0
    }
}

/// `parts`, with `separator` between each two of them.
pub open spec fn joined(parts: Seq<Seq<char>>, separator: Seq<char>) -> Seq<char>
    decreases parts.len(),
{
    if parts.len() == 0 {
        Seq::empty()
    } else if parts.len() == 1 {
        parts[0]
    } else {
        joined(parts.drop_last(), separator) + separator + parts.last()
    }
}

impl NotifyFlag {
    /// No kind at all.
    pub open spec fn none() -> NotifyFlag {
        NotifyFlag {
            without_comment: false,
            with_comment: false,
            status: false,
            record: false,
            review: false,
        }
    }

    /// Every kind is set.
    pub open spec fn is_every(self) -> bool {
        self.without_comment && self.with_comment && self.status && self.record && self.review
    }

    /// The number under which the flags are stored.
    pub open spec fn bits_model(self) -> int {
        bit(self.without_comment) + 2 * bit(self.with_comment) + 4 * bit(self.status) + 8 * bit(
            self.record,
        ) + 16 * bit(self.review)
    }

    /// The flags with the kind of `choice` set.
    pub open spec fn with_choice(self, choice: Choice) -> NotifyFlag {
        match choice {
            Choice::WithComment => NotifyFlag { with_comment: true, ..self },
            Choice::Record => NotifyFlag { record: true, ..self },
            Choice::Review => NotifyFlag { review: true, ..self },
            Choice::WithoutComment => NotifyFlag { without_comment: true, ..self },
            Choice::Status => NotifyFlag { status: true, ..self },
        }
    }

    /// The flags of a selection `self`, made consistent.
    ///
    /// With records or reviews selected: where neither of the two comment
    /// kinds is, both are set; where only those with a comment are wanted,
    /// changes of state, which have none, are dropped. Without records and
    /// reviews: with changes of state selected, "with a comment" says
    /// nothing and is dropped; otherwise the comment kinds alone were
    /// selected, and records and reviews are set, and changes of state too
    /// where activities without a comment are wanted.
    pub open spec fn normalized_model(self) -> NotifyFlag {
        if self.record || self.review {
            if !self.with_comment && !self.without_comment {
                NotifyFlag { with_comment: true, without_comment: true, ..self }
            } else if self.with_comment && !self.without_comment {
                NotifyFlag { status: false, ..self }
            } else {
                self
            }
        } else if self.status {
            NotifyFlag { with_comment: false, ..self }
        } else {
            NotifyFlag { record: true, review: true, status: self.without_comment, ..self }
        }
    }

    /// What is added to the name of a kind where only one of the two comment
    /// kinds is set.
    pub open spec fn comment_note(self) -> Seq<char> {
        if self.with_comment && self.without_comment {
            ""@
        } else if self.with_comment {
            "(感想あり)"@
        } else {
            "(感想なし)"@
        }
    }

    /// The names of the kinds that are set, of records, reviews and changes
    /// of state, in this order.
    pub open spec fn kind_names(self) -> Seq<Seq<char>> {
        let records: Seq<Seq<char>> = if self.record {
            seq!["エピソード記録"@ + self.comment_note()]
        } else {
            Seq::empty()
        };
        let reviews: Seq<Seq<char>> = if self.review {
            records.push("作品記録"@ + self.comment_note())
        } else {
            records
        };
        if self.status {
            reviews.push("ステータス更新"@)
        } else {
            reviews
        }
    }

    /// The flags in words: `全て` where every kind is set, else the names of
    /// the kinds with `・` between them.
    pub open spec fn describe_model(self) -> Seq<char> {
        if self.is_every() {
            "全て"@
        } else {
            joined(self.kind_names(), "・"@)
        }
    }

    /// No kind at all.
    pub fn empty() -> (flag: NotifyFlag)
        ensures
            flag == NotifyFlag::none(),
            flag.bits_model() == 0,
    {
        NotifyFlag {
            without_comment: false,
            with_comment: false,
            status: false,
            record: false,
            review: false,
        }
    }

    /// Every kind.
    pub fn all() -> (flag: NotifyFlag)
        ensures
            flag.is_every(),
            flag.bits_model() == 31,
    {
        NotifyFlag {
            without_comment: true,
            with_comment: true,
            status: true,
            record: true,
            review: true,
        }
    }

    /// Whether every kind is set.
    pub fn is_all(&self) -> (r: bool)
        ensures
            r == self.is_every(),
    {
        self.without_comment && self.with_comment && self.status && self.record && self.review
    }

    /// The number under which the flags are stored.
    pub fn bits(&self) -> (bits: i32)
        ensures
            bits == self.bits_model(),
            0 <= bits <= 31,
    {
        let mut bits: i32 = 0;
        if self.without_comment {
            bits = bits + 1;
        }
        if self.with_comment {
            bits = bits + 2;
        }
        if self.status {
            bits = bits + 4;
        }
        if self.record {
            bits = bits + 8;
        }
        if self.review {
            bits = bits + 16;
        }
        bits
    }

    /// The flags that are stored under `bits`: none where `bits` has a bit
    /// that stands for no kind.
    pub fn from_bits(bits: i32) -> (r: Option<NotifyFlag>)
        ensures
            r is Some <==> 0 <= bits <= 31,
            r is Some ==> r->0.bits_model() == bits,
    {
        if bits < 0 || bits > 31 {
            return None;
        }
        Some(
            NotifyFlag {
                without_comment: bits % 2 == 1,
                with_comment: (bits / 2) % 2 == 1,
                status: (bits / 4) % 2 == 1,
                record: (bits / 8) % 2 == 1,
                review: (bits / 16) % 2 == 1,
            },
        )
    }

    /// The choice that a value of the selection menu stands for.
    pub open spec fn choice_model(value: Seq<char>) -> Option<Choice> {
        if value == "with_comment"@ {
            Some(Choice::WithComment)
        } else if value == "record"@ {
            Some(Choice::Record)
        } else if value == "review"@ {
            Some(Choice::Review)
        } else if value == "without_comment"@ {
            Some(Choice::WithoutComment)
        } else if value == "status"@ {
            Some(Choice::Status)
        } else {
            None
        }
    }

    /// The choice that a value of the selection menu stands for; none where
    /// the menu has no such value.
    pub fn choice(value: &String) -> (r: Option<Choice>)
        ensures
            r == NotifyFlag::choice_model(value@),
    {
        if *value == String::from_str("with_comment") {
            Some(Choice::WithComment)
        } else if *value == String::from_str("record") {
            Some(Choice::Record)
        } else if *value == String::from_str("review") {
            Some(Choice::Review)
        } else if *value == String::from_str("without_comment") {
            Some(Choice::WithoutComment)
        } else if *value == String::from_str("status") {
            Some(Choice::Status)
        } else {
            None
        }
    }

    /// The flags with the kind of `choice` set.
    pub fn with(self, choice: Choice) -> (flag: NotifyFlag)
        ensures
            flag == self.with_choice(choice),
    {
        match choice {
            Choice::WithComment => NotifyFlag { with_comment: true, ..self },
            Choice::Record => NotifyFlag { record: true, ..self },
            Choice::Review => NotifyFlag { review: true, ..self },
            Choice::WithoutComment => NotifyFlag { without_comment: true, ..self },
            Choice::Status => NotifyFlag { status: true, ..self },
        }
    }

    /// Makes the flags of a selection consistent: see
    /// [`NotifyFlag::normalized_model`].
    pub fn normalized(self) -> (flag: NotifyFlag)
        ensures
            flag == self.normalized_model(),
    {
        if self.record || self.review {
            if !self.with_comment && !self.without_comment {
                NotifyFlag { with_comment: true, without_comment: true, ..self }
            } else if self.with_comment && !self.without_comment {
                NotifyFlag { status: false, ..self }
            } else {
                self
            }
        } else if self.status {
            NotifyFlag { with_comment: false, ..self }
        } else {
            NotifyFlag { record: true, review: true, status: self.without_comment, ..self }
        }
    }

    /// The flags in words.
    pub fn describe(&self) -> (text: String)
        ensures
            text@ == self.describe_model(),
    {
        if self.is_all() {
            return String::from_str("全て");
        }
        let note = if self.with_comment && self.without_comment {
            ""
        } else if self.with_comment {
            "(感想あり)"
        } else {
            "(感想なし)"
        };
        let mut text = String::new();
        let ghost mut names: Seq<Seq<char>> = Seq::empty();
        if self.record {
            text.append("エピソード記録");
            text.append(note);
            proof {
                names = names.push("エピソード記録"@ + note@);
            }
        }
        if self.review {
            if self.record {
                text.append("・");
            }
            text.append("作品記録");
            text.append(note);
            proof {
                assert(names.push("作品記録"@ + note@).drop_last() =~= names);
                names = names.push("作品記録"@ + note@);
            }
        }
        assert(text@ =~= joined(names, "・"@)) by {
            reveal_with_fuel(joined, 3);
        }
        if self.status {
            if self.record || self.review {
                text.append("・");
            }
            text.append("ステータス更新");
            proof {
                assert(names.push("ステータス更新"@).drop_last() =~= names);
                assert(text@ =~= joined(names.push("ステータス更新"@), "・"@));
                names = names.push("ステータス更新"@);
            }
        }
        assert(names =~= self.kind_names());
        text
    }
}

impl Default for NotifyFlag {
    /// Every kind.
    fn default() -> (flag: NotifyFlag)
        ensures
            flag.is_every(),
    {
        NotifyFlag::all()
    }
}

} // verus!
