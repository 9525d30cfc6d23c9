//! Every piece of text the engine puts into job logs, job titles and chat
//! message lines. Keeping them in one place lets contracts name them exactly.

use vstd::prelude::*;

verus! {

pub const FATAL_RUNTIME_ERROR: &'static str = "WARNING: FATAL";

pub const CONNECTION_DROPPED_ERROR: &'static str = "Websocket connection dropped";

pub const MESSAGE_CORRUPTED_ERROR: &'static str = "Unable to read from connection stream";

pub const RX_GENERAL_ERROR: &'static str = "Recieved client error from socket";

pub const TIE_BROKEN: &'static str = "Tie broken";

pub const JOB_STARTING: &'static str = "Starting...";

pub const JOB_SUCCESS: &'static str = "SUCCESS";

pub const AUTH_JOB: &'static str = "Authorizing...";

pub const AUTH_JOB_PRECONNECT: &'static str = "Reaching server...";

pub const AUTH_JOB_PRECONNECT_FAULT_PARSE: &'static str = "FAULT: Unable to parse server response";

pub const AUTH_JOB_PRECONNECT_FAULT_GET: &'static str = "FAULT: Unable to get response from server";

pub const AUTH_JOB_PRECONNECT_FAULT_DISAPPROVED: &'static str =
    "FAULT: Connection not approved. Try again later";

pub const AUTH_JOB_CONNECT: &'static str = "Connecting to socket...";

pub const AUTH_JOB_CONNECT_AUTH: &'static str = "Sending auth data...";

pub const AUTH_JOB_CONNECT_AUTH_FAULT: &'static str = "FAULT: Access denied";

pub const AUTH_JOB_CONNECT_AUTH_FAULT_OVERAUTH: &'static str = "FAULT: User already logged in";

pub const AUTH_JOB_CONNECT_FAULT: &'static str = "FAULT: Unable to communicate with socket";

pub const TIE_JOB: &'static str = "Tying...";

pub const TIE_JOB_WITH: &'static str = "Tying with";

pub const TIE_JOB_AWAITING: &'static str = "Waiting for subject to connect...";

pub const TIE_JOB_UNTYING: &'static str = "Breaking existing tie...";

pub const TIE_JOB_FAULT_NOUSER: &'static str = "FAULT: This user does not exist";

pub const TIE_JOB_FAULT_SELFTIE: &'static str = "FAULT: Attempt to tie with self";

pub const TIE_JOB_FAULT_OVERTIE: &'static str = "FAULT: Existing tie not broken";

} // verus!
