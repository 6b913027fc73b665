//! The catalogue core of a personal website.
//!
//! The write side is the add workflow ([`add`]): a password gate
//! ([`credential`]), the validation of a submitted form ([`form`]), the
//! allocation of a free slug ([`slug`]), the synthesis of the entry's markdown
//! document ([`markdown`]) and its commit to the content store ([`commit`]),
//! with a search proxy to the metadata providers beside it ([`proxy`]). The
//! workflow sends nothing itself: it names the requests to send ([`http`])
//! and is told what they fetched.
//!
//! The read side is the query engine ([`query`]): it filters the dataset,
//! scores it against a search text ([`search`]), puts it in listing order
//! ([`listing`], [`ordering`], [`sorting`]) and cuts out a page
//! ([`pagination`]). The exported dataset and its content hash are in
//! [`dataset`], the place that keeps the hash in [`state`].
//!
//! The data model is in [`kind`], [`rating`], [`date`], [`entry`],
//! [`metadata`] and [`row`]; [`fields`], [`json`] and [`text`] hold what the
//! rest shares.

pub mod add;
pub mod commit;
pub mod credential;
pub mod dataset;
pub mod date;
pub mod entry;
pub mod fields;
pub mod form;
pub mod http;
pub mod json;
pub mod kind;
pub mod listing;
pub mod markdown;
pub mod metadata;
pub mod ordering;
pub mod pagination;
pub mod proxy;
pub mod query;
pub mod rating;
pub mod row;
pub mod search;
pub mod slug;
pub mod sorting;
pub mod state;
pub mod text;
