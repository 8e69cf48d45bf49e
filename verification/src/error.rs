//! The failures that the commands report, and the message shown for each.

use vstd::prelude::*;

verus! {

/// The step of the authorisation that was denied.
#[derive(Debug, Clone, Copy, PartialEq, Eq, Structural)]
pub enum AuthOperation {
    /// Setting up the consent flow.
    BuildFlow,
    /// Obtaining a token for the scopes.
    RequestToken,
}

/// Why a command could not be carried out.
#[derive(Debug, Clone, PartialEq, Eq)]
pub enum GsheetError {
    /// The configuration file does not exist.
    ConfigMissing,
    /// The configuration file is no valid JSON, or names no client secret path.
    ConfigMalformed,
    /// The client secret file at `path` is absent or cannot be parsed.
    CredentialUnreadable { path: String },
    /// The authorisation flow failed, or the granted scopes do not suffice.
    AuthorizationDenied { operation: AuthOperation },
    /// A page of the Drive listing could not be fetched.
    DriveQueryFailed { reason: String },
    /// A request to the Sheets service failed.
    SheetAccessFailed { reason: String },
    /// The spreadsheet has no sheet with that title.
    SheetNotFound { sheet_name: String },
}

/// The mathematical value of a `GsheetError`.
pub enum ErrorView {
    ConfigMissing,
    ConfigMalformed,
    CredentialUnreadable { path: Seq<char> },
    AuthorizationDenied { operation: AuthOperation },
    DriveQueryFailed { reason: Seq<char> },
    SheetAccessFailed { reason: Seq<char> },
    SheetNotFound { sheet_name: Seq<char> },
}

impl View for GsheetError {
    type V = ErrorView;

    open spec fn view(&self) -> ErrorView {
        match *self {
            GsheetError::ConfigMissing => ErrorView::ConfigMissing,
            GsheetError::ConfigMalformed => ErrorView::ConfigMalformed,
            GsheetError::CredentialUnreadable { path } => ErrorView::CredentialUnreadable {
                path: path@,
            },
            GsheetError::AuthorizationDenied { operation } => ErrorView::AuthorizationDenied {
                operation,
            },
            GsheetError::DriveQueryFailed { reason } => ErrorView::DriveQueryFailed {
                reason: reason@,
            },
            GsheetError::SheetAccessFailed { reason } => ErrorView::SheetAccessFailed {
                reason: reason@,
            },
            GsheetError::SheetNotFound { sheet_name } => ErrorView::SheetNotFound {
                sheet_name: sheet_name@,
            },
        }
    }
}

impl ErrorView {
    /// The text shown to the user: what was attempted, and what to do about it.
    pub open spec fn message(self) -> Seq<char> {
        match self {
            ErrorView::ConfigMissing => CONFIG_MISSING_MESSAGE@,
            ErrorView::ConfigMalformed => CONFIG_MALFORMED_MESSAGE@,
            ErrorView::CredentialUnreadable { path } => CREDENTIAL_MESSAGE_HEAD@ + path
                + CREDENTIAL_MESSAGE_TAIL@,
            ErrorView::AuthorizationDenied { operation } => match operation {
                AuthOperation::BuildFlow => FLOW_MESSAGE@,
                AuthOperation::RequestToken => TOKEN_MESSAGE@,
            },
            ErrorView::DriveQueryFailed { reason } => DRIVE_MESSAGE_HEAD@ + reason,
            ErrorView::SheetAccessFailed { reason } => SHEET_MESSAGE_HEAD@ + reason,
            ErrorView::SheetNotFound { sheet_name } => NOT_FOUND_MESSAGE_HEAD@ + sheet_name
                + NOT_FOUND_MESSAGE_TAIL@,
        }
    }

    /// Whether the failure ends the command with a failing exit status. A
    /// missing sheet is reported and the command ends normally.
    pub open spec fn is_fatal(self) -> bool {
        !(self is SheetNotFound)
    }
}

pub const CONFIG_MISSING_MESSAGE: &'static str =
    "Failed to read client secret configuration: gsheet_config.json does not exist. Run 'gsheet init --path <FILE_PATH>' first.";

pub const CONFIG_MALFORMED_MESSAGE: &'static str =
    "Failed to read client secret configuration: client_secret_path not found in configuration. Run 'gsheet init --path <FILE_PATH>' again.";

pub const CREDENTIAL_MESSAGE_HEAD: &'static str = "Failed to read client secret from '";

pub const CREDENTIAL_MESSAGE_TAIL: &'static str =
    "'. Please ensure the file exists and is accessible, or run 'gsheet init --path <FILE_PATH>' with the correct path.";

pub const FLOW_MESSAGE: &'static str =
    "Failed to build authentication flow. Please check your internet connection and try again.";

pub const TOKEN_MESSAGE: &'static str =
    "Failed to obtain authentication token. Please ensure you have the correct permissions and try again.";

pub const DRIVE_MESSAGE_HEAD: &'static str = "Failed to list spreadsheets: ";

pub const SHEET_MESSAGE_HEAD: &'static str = "Failed to read the spreadsheet: ";

pub const NOT_FOUND_MESSAGE_HEAD: &'static str = "Sheet '";

pub const NOT_FOUND_MESSAGE_TAIL: &'static str = "'을 찾을 수 없습니다.";

impl GsheetError {
    /// The text shown to the user for this failure.
    pub fn message(&self) -> (text: String)
        ensures
            text@ == self@.message(),
    {
        match self {
            GsheetError::ConfigMissing => String::from_str(CONFIG_MISSING_MESSAGE),
            GsheetError::ConfigMalformed => String::from_str(CONFIG_MALFORMED_MESSAGE),
            GsheetError::CredentialUnreadable { path } => {
                let mut text = String::from_str(CREDENTIAL_MESSAGE_HEAD);
                text.append(path.as_str());
                text.append(CREDENTIAL_MESSAGE_TAIL);
                text
            },
            GsheetError::AuthorizationDenied { operation } => match operation {
                AuthOperation::BuildFlow => String::from_str(FLOW_MESSAGE),
                AuthOperation::RequestToken => String::from_str(TOKEN_MESSAGE),
            },
            GsheetError::DriveQueryFailed { reason } => {
                let mut text = String::from_str(DRIVE_MESSAGE_HEAD);
                text.append(reason.as_str());
                text
            },
            GsheetError::SheetAccessFailed { reason } => {
                let mut text = String::from_str(SHEET_MESSAGE_HEAD);
                text.append(reason.as_str());
                text
            },
            GsheetError::SheetNotFound { sheet_name } => {
                let mut text = String::from_str(NOT_FOUND_MESSAGE_HEAD);
                text.append(sheet_name.as_str());
                text.append(NOT_FOUND_MESSAGE_TAIL);
                text
            },
        }
    }

    /// Whether the failure ends the command with a failing exit status.
    pub fn is_fatal(&self) -> (fatal: bool)
        ensures
            fatal == self@.is_fatal(),
    {
        match self {
            GsheetError::SheetNotFound { .. } => false,
            _ => true,
        }
    }
}

} // verus!
