//! Verification of Firebase ID tokens against the provider's rotating key set.
//!
//! The library holds the decisions: the shape of the `Authorization` header,
//! the key-id of a token, the time-bounded key-set cache and its refresh
//! policy, and the acceptance of decoded claims. Network fetches, locking and
//! the wall clock stay with the caller, which hands their results back in.

pub mod claims;
pub mod game_board;
pub mod keyset;
pub mod operations;
pub mod resolver;
pub mod token;

pub use claims::{AuthError, AuthenticatedUser, FirebaseClaims};
pub use keyset::{find_key, str_eq, JwksCache, KeyRecord, KEY_SET_TTL_SECS};
pub use resolver::{begin_resolve, derive_key, finish_resolve, FetchError, ResolveStep};
pub use token::{
    accept_claims, bearer_token, get_user_from_context, kid_from_header, require_auth, token_kid,
    AuthRequired, DecodeOutcome, EXPECTED_AUDIENCE, EXPECTED_ISSUER,
};
pub use operations::{
    check_trimmed_update, CreateGameInput, CreatePlayerInput, CreateQuestionInput, GameMutation,
    PlayerMutation, QuestionMutation, QuestionQuery, QuestionUpdateError, UpdateQuestionInput,
    UserQuery,
};
pub use game_board::{GameBoard, NewGameBoard, UpdateGameBoard};
