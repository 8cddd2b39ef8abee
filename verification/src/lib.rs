mod auth;
mod claims;
mod errors;
mod filter;
mod json;
mod mutate;
mod report;
mod sync;
mod table;
mod textfmt;

pub use report::cell_json_view;
pub use report::cells_json_view;
pub use report::filter_result_json;
pub use report::report_view;
pub use report::row_json_view;
pub use report::rows_json_view;
pub use sync::SyncEvent;
pub use sync::SyncState;
pub use sync::lemma_sync_terminal_states;
pub use sync::lemma_sync_work_needs_token;
pub use sync::spec_sync_step;
pub use sync::sync_step;
pub use textfmt::dec_digits;
pub use textfmt::digit_char;
pub use textfmt::escape_char;
pub use textfmt::escaped;
pub use textfmt::hex_digit;
pub use textfmt::json_quoted;
pub use textfmt::push_dec;
pub use textfmt::push_json_string;
pub use textfmt::push_str_chars;
pub use textfmt::unescape_newlines;
pub use textfmt::unescaped_nl;

pub use mutate::RowRange;
pub use mutate::append_url;
pub use mutate::append_url_view;
pub use mutate::batch_update_url;
pub use mutate::batch_update_url_view;
pub use mutate::classify_write_status;
pub use mutate::delete_body;
pub use mutate::delete_body_view;
pub use mutate::delete_row_range;
pub use mutate::read_url;
pub use mutate::read_url_view;
pub use mutate::spec_write_status;
pub use mutate::update_range_view;
pub use mutate::update_url;
pub use mutate::update_url_view;
pub use mutate::values_body;
pub use mutate::values_body_view;
pub use mutate::write_outcome;

pub use filter::FilterResult;
pub use filter::Predicate;
pub use filter::filter;
pub use filter::lemma_filter_characterization;
pub use filter::lemma_filter_preserves_order;
pub use filter::lemma_short_row_never_matches;
pub use filter::lemma_filter_subset;
pub use filter::lemma_header_excluded;
pub use filter::matched_rows_of;
pub use filter::pred_holds;
pub use filter::row_matches;
pub use filter::row_satisfies;
pub use table::Cell;
pub use table::CellView;
pub use table::Table;
pub use table::TableView;
pub use table::clone_cell;
pub use table::clone_row;
pub use table::fetch_table;
pub use table::parse_table_response;
pub use table::table_from_optional_values;

pub use auth::AccessToken;
pub use auth::AccessTokenView;
pub use auth::acquire_outcome;
pub use auth::SignedAssertion;
pub use auth::grant_type_jwt_bearer;
pub use auth::parse_token_response;
pub use auth::rsa_pem_ok;
pub use auth::sheets_scope;
pub use auth::sign_assertion;
pub use auth::spec_token_expired;
pub use auth::token_endpoint;
pub use auth::token_expired;
pub use auth::token_from_field;
pub use claims::Assertion;
pub use claims::AssertionView;
pub use claims::ServiceIdentity;
pub use claims::TOKEN_LIFETIME_SECS;
pub use claims::assertion_view_of;
pub use claims::build_assertion;
pub use claims::claims_json;
pub use claims::claims_json_view;
pub use claims::lemma_assertion_freshness;
pub use errors::AuthError;
pub use errors::ReadError;
pub use errors::WriteError;

