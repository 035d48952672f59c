//! Serving the one request that needs no dataset: parse a file and hand
//! back what was found in it.

use vstd::prelude::*;
use crate::chat::ChatWithMessages;
use crate::entities::{Dataset, User};
use crate::loader::LoadedDataset;
use crate::request::{truncate_to, truncated, Status, StatusCode};
use vstd::string::*;

verus! {

/// Asks for the file at `path` to be parsed.
#[derive(Clone, Debug, PartialEq, Eq)]
pub struct ParseJsonFileRequest {
    pub path: String,
}

/// What was found in a parsed file.
#[derive(Clone, Debug, PartialEq, Eq)]
pub struct ParseJsonFileResponse {
    pub ds: Dataset,
    pub root_file: String,
    pub myself: User,
    pub users: Vec<User>,
    pub cwm: Vec<ChatWithMessages>,
}

/// Serves requests to parse single files.
#[derive(Clone, Copy, Debug)]
pub struct JsonServer {}

impl Default for JsonServer {
    fn default() -> (server: JsonServer) {
        JsonServer {  }
    }
}

/// How many grapheme clusters of the line on an outcome are printed.
pub const PRINTED_LENGTH: usize = 200;

impl JsonServer {
    /// What is printed when a request has been served; `response` is the
    /// outcome as written out for the log. The line as a whole is cut.
    pub fn response_line(&self, response: &str) -> (line: String)
        ensures
            line@ == truncated("<<< Response: "@ + response@, PRINTED_LENGTH as nat),
    {
        let mut whole = "<<< Response: ".to_owned();
        whole.append(response);
        truncate_to(whole.as_str(), PRINTED_LENGTH)
    }

    /// Answers a request to parse a file; `parsed` is what the parser made
    /// of the file. A parsed history is handed back whole, with the root of
    /// its dataset as text. A failure of the parser is shown to the caller
    /// as internal, in the parser's own words.
    pub fn parse_json_file(&self, parsed: Result<LoadedDataset, String>) -> (response: Result<
        ParseJsonFileResponse,
        Status,
    >)
        ensures
            match parsed {
                Ok(loaded) => response == Ok::<ParseJsonFileResponse, Status>(
                    ParseJsonFileResponse {
                        ds: loaded.dataset,
                        root_file: loaded.ds_root.0,
                        myself: loaded.myself,
                        users: loaded.users,
                        cwm: loaded.cwms,
                    },
                ),
                Err(words) => response == Err::<ParseJsonFileResponse, Status>(
                    Status { code: StatusCode::Internal, message: words },
                ),
            },
    {
        match parsed {
            Ok(loaded) => Ok(
                ParseJsonFileResponse {
                    ds: loaded.dataset,
                    root_file: loaded.ds_root.0,
                    myself: loaded.myself,
                    users: loaded.users,
                    cwm: loaded.cwms,
                },
            ),
            Err(words) => Err(Status { code: StatusCode::Internal, message: words }),
        }
    }
}

} // verus!
