//! Records of a four-player score ledger and the rules that a REST service over
//! a document store applies to them: identifiers and their text form, creation
//! with starting scores, partial updates, pagination of listings, and the
//! answer that each operation gives for what the store reported.
mod error;
mod game;
mod id;
mod pagination;
mod service;

pub use error::{kind_of, message_of, Error, Failure};

pub use id::lemma_text_round_trip;
pub use id::GameId;
pub use id::{decodes_to, hex_value, is_hex_digit, is_id_text, is_lower_hex_digit, lower_hex_of};

pub use game::{apply_changes, changes_of, created, field_key, updated, with_field};
pub use game::{lemma_changes_apply, lemma_created_scores};
pub use game::{score_or_keep, score_or_start};
pub use game::{CreateGame, Field, Game, UpdateGame, STARTING_SCORE};

pub use pagination::Pagination;
pub use pagination::{lemma_page_shape, lemma_unbounded_page_is_everything};
pub use pagination::{page, page_end, page_start, skip_of};

pub use service::{create_outcome, delete_outcome, list_games, status, target, update_outcome};
pub use service::{create_result, delete_result, remaining, store_updated, status_of, success_status, update_result};
pub use service::{lemma_delete_missing_is_not_found, lemma_delete_then_list};
pub use service::{lemma_update_missing_is_not_found, lemma_update_store};
pub use service::Endpoint;
