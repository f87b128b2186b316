use vstd::prelude::*;

verus! {

/// Input of the game creation operation.
pub struct CreateGameInput {
    pub user_id: i64,
    pub game_board_id: i64,
}

/// Input of the player creation operation.
pub struct CreatePlayerInput {
    pub game_id: i64,
    pub player_name: String,
}

/// Input of the question creation operation.
pub struct CreateQuestionInput {
    pub user_id: i64,
    pub question: String,
    pub answer: String,
}

/// Input of the question update operation; an absent field is left as it is.
pub struct UpdateQuestionInput {
    pub id: i64,
    pub question: Option<String>,
    pub answer: Option<String>,
}

/// Operations on games.
pub struct GameMutation;

/// Operations on players.
pub struct PlayerMutation;

/// Operations on questions.
pub struct QuestionMutation;

/// Lookups of questions.
pub struct QuestionQuery;

/// Lookups of users.
pub struct UserQuery;

/// The name of the `n`-th player a new game starts with, counting from one.
pub open spec fn default_player_name(n: int) -> Seq<char> {
    if n == 1 {
        "Player 1"@
    } else if n == 2 {
        "Player 2"@
    } else {
        "Player 3"@
    }
}

impl GameMutation {
    /// The names of the three players every new game starts with.
    pub fn default_player_names() -> (r: Vec<String>)
        ensures
            r@.len() == 3,
            forall|i: int| 0 <= i < 3 ==> #[trigger] r@[i]@ == default_player_name(i + 1),
    {
        let mut r: Vec<String> = Vec::new();
        r.push("Player 1".to_owned());
        r.push("Player 2".to_owned());
        r.push("Player 3".to_owned());
        r
    }
}

/// Why a question update was refused.
#[derive(Debug, Clone, Copy, PartialEq, Eq, Structural)]
pub enum QuestionUpdateError {
    /// The requestor is not the question's author.
    NotAuthor,
    /// The new question text is blank.
    EmptyQuestion,
    /// The new answer text is blank.
    EmptyAnswer,
}

impl QuestionUpdateError {
    /// The message shown to the client.
    pub fn message(&self) -> (r: &'static str)
        ensures
            r@ == (match *self {
                QuestionUpdateError::NotAuthor => "Requestor did not match question author"@,
                QuestionUpdateError::EmptyQuestion => "Question cannot be empty"@,
                QuestionUpdateError::EmptyAnswer => "Answer cannot be empty"@,
            }),
    {
        match self {
            QuestionUpdateError::NotAuthor => "Requestor did not match question author",
            QuestionUpdateError::EmptyQuestion => "Question cannot be empty",
            QuestionUpdateError::EmptyAnswer => "Answer cannot be empty",
        }
    }
}

/// The characters with the Unicode `White_Space` property.
pub open spec fn is_white_space(c: char) -> bool {
    let u = c as u32;
    ||| 0x9 <= u <= 0xD
    ||| u == 0x20
    ||| u == 0x85
    ||| u == 0xA0
    ||| u == 0x1680
    ||| 0x2000 <= u <= 0x200A
    ||| u == 0x2028
    ||| u == 0x2029
    ||| u == 0x202F
    ||| u == 0x205F
    ||| u == 0x3000
}

/// `t` is `s` with its leading and trailing white space removed.
pub open spec fn is_trim_of(s: Seq<char>, t: Seq<char>) -> bool {
    exists|a: int, b: int|
        {
            &&& 0 <= a <= b <= s.len()
            &&& t == s.subrange(a, b)
            &&& forall|i: int| 0 <= i < a ==> is_white_space(#[trigger] s[i])
            &&& forall|i: int| b <= i < s.len() ==> is_white_space(#[trigger] s[i])
            &&& a < b ==> !is_white_space(s[a]) && !is_white_space(s[b - 1])
        }
}

/// Every character of `s` is white space.
pub open spec fn all_white_space(s: Seq<char>) -> bool {
    forall|i: int| 0 <= i < s.len() ==> is_white_space(#[trigger] s[i])
}

/// A text trims to nothing exactly when it is all white space.
pub proof fn lemma_trim_empty_iff_blank(s: Seq<char>, t: Seq<char>)
    requires
        is_trim_of(s, t),
    ensures
        (t.len() == 0) == all_white_space(s),
{
    let (a, b) = choose|a: int, b: int|
        {
            &&& 0 <= a <= b <= s.len()
            &&& t == s.subrange(a, b)
            &&& forall|i: int| 0 <= i < a ==> is_white_space(#[trigger] s[i])
            &&& forall|i: int| b <= i < s.len() ==> is_white_space(#[trigger] s[i])
            &&& a < b ==> !is_white_space(s[a]) && !is_white_space(s[b - 1])
        };
    if a < b {
        assert(!is_white_space(s[a]));
    } else {
        assert forall|i: int| 0 <= i < s.len() implies is_white_space(#[trigger] s[i]) by {}
    }
}

/// Relies on `str::trim`: it removes the leading and trailing characters
/// that have the Unicode `White_Space` property.
#[verifier::external_body]
fn trim(s: &str) -> (r: &str)
    ensures
        is_trim_of(s@, r@),
{
    s.trim()
}

pub open spec fn opt_len_zero(t: Option<&str>) -> bool {
    t matches Some(s) && s@.len() == 0
}

/// The verdict on an update, given the ids of requestor and author and the
/// new texts with their surrounding whitespace removed.
pub open spec fn update_verdict(
    requestor_id: i64,
    author_id: i64,
    question_blank: bool,
    answer_blank: bool,
) -> Result<(), QuestionUpdateError> {
    if requestor_id != author_id {
        Err(QuestionUpdateError::NotAuthor)
    } else if question_blank {
        Err(QuestionUpdateError::EmptyQuestion)
    } else if answer_blank {
        Err(QuestionUpdateError::EmptyAnswer)
    } else {
        Ok(())
    }
}

/// Decides an update from already trimmed texts: only the author may update,
/// and neither new text may be empty.
pub fn check_trimmed_update(
    requestor_id: i64,
    author_id: i64,
    question: Option<&str>,
    answer: Option<&str>,
) -> (r: Result<(), QuestionUpdateError>)
    ensures
        r == update_verdict(requestor_id, author_id, opt_len_zero(question), opt_len_zero(answer)),
{
    if requestor_id != author_id {
        return Err(QuestionUpdateError::NotAuthor);
    }
    if let Some(q) = question {
        if q.unicode_len() == 0 {
            return Err(QuestionUpdateError::EmptyQuestion);
        }
    }
    if let Some(a) = answer {
        if a.unicode_len() == 0 {
            return Err(QuestionUpdateError::EmptyAnswer);
        }
    }
    Ok(())
}

/// The text is present and blank once trimmed.
pub open spec fn blank_when_trimmed(t: Option<String>) -> bool {
    t matches Some(s) && all_white_space(s@)
}

impl QuestionMutation {
    /// Decides whether `requestor_id` may apply `input` to a question written
    /// by `author_id`.
    pub fn check_update(requestor_id: i64, author_id: i64, input: &UpdateQuestionInput) -> (r: Result<
        (),
        QuestionUpdateError,
    >)
        ensures
            r == update_verdict(
                requestor_id,
                author_id,
                blank_when_trimmed(input.question),
                blank_when_trimmed(input.answer),
            ),
    {
        let q = match &input.question {
            Some(s) => {
                let t = trim(s.as_str());
                proof {
                    lemma_trim_empty_iff_blank(s@, t@);
                }
                Some(t)
            },
            None => None,
        };
        let a = match &input.answer {
            Some(s) => {
                let t = trim(s.as_str());
                proof {
                    lemma_trim_empty_iff_blank(s@, t@);
                }
                Some(t)
            },
            None => None,
        };
        check_trimmed_update(requestor_id, author_id, q, a)
    }
}

} // verus!
