//! The logic of `gsheet`, a command-line reader for Google Sheets.
//!
//! The program authorises a session against Google's OAuth2 service, lists
//! the spreadsheets of a Drive whose name holds a given text, and prints a
//! range of cells of a sheet. This library holds what the program decides
//! and computes; talking to the services, reading and writing files and
//! printing are left to the program around it.
//!
//! - `config`: the text of the configuration file, which names the client
//!   secret file.
//! - `init`: what `init` does with a client secret path.
//! - `google_auth`: the steps of the authorisation bootstrap and the scopes
//!   asked for.
//! - `google_drive`: the search query, the request for each page of a
//!   listing, and the joining of the pages.
//! - `google_sheet`: finding a sheet by its title, and the request for the
//!   values of a range.
//! - `table`: the tables printed for a listing and for a range.
//! - `error`: the failures, and the message shown for each.
//! - `text`: decimal numerals.
//!
//! Where a service is involved, the library is driven by its caller: a
//! function gives the request to send, the caller sends it, and another
//! function takes the response and says what follows.

pub mod config;
pub mod error;
pub mod google_auth;
pub mod google_drive;
pub mod google_sheet;
pub mod init;
pub mod table;
pub mod text;
