//! The wire codec: one flag character in front of an opaque body, one frame
//! per transport message. Decoding an empty frame is the codec's only failure.

use vstd::prelude::*;
use crate::strings::AUTH_JOB_CONNECT_AUTH_FAULT;
use crate::strings::AUTH_JOB_CONNECT_AUTH_FAULT_OVERAUTH;
use crate::strings::AUTH_JOB_CONNECT_FAULT;
use crate::strings::AUTH_JOB_PRECONNECT_FAULT_DISAPPROVED;
use crate::strings::AUTH_JOB_PRECONNECT_FAULT_GET;
use crate::strings::AUTH_JOB_PRECONNECT_FAULT_PARSE;
use crate::strings::CONNECTION_DROPPED_ERROR;
use crate::strings::MESSAGE_CORRUPTED_ERROR;
use crate::strings::RX_GENERAL_ERROR;
use crate::strings::TIE_JOB_FAULT_NOUSER;
use crate::strings::TIE_JOB_FAULT_OVERTIE;
use crate::strings::TIE_JOB_FAULT_SELFTIE;

verus! {

// Client-to-server flags.
pub const TX_AUTH_FLAG: char = 'A';

pub const TX_DROPME_FLAG: char = 'X';

pub const TX_TIE_INIT_FLAG: char = 'T';

// Server-to-client flags.
pub const RX_AUTH_OK_FLAG: char = 'O';

pub const RX_AUTH_FAULT_FLAG: char = 'D';

pub const RX_AUTH_FAULT_OVERAUTH_FLAG: char = 'I';

pub const RX_TIE_OK_FLAG: char = 'S';

pub const RX_TIE_OK_WAIT_FLAG: char = 'W';

pub const RX_TIE_FAULT_NOUSER_FLAG: char = 'N';

pub const RX_TIE_FAULT_SELFTIE_FLAG: char = 'M';

pub const RX_TIE_FAULT_OVERTIE_FLAG: char = 'R';

// Flags used in both directions.
pub const RXTX_UNTIE_FLAG: char = 'C';

pub const RXTX_OK_FLAG: char = 'Y';

pub const RXTX_FAULT_FLAG: char = 'E';

pub const RXTX_MESSAGE_FLAG: char = 'B';

/// Every fault the engine recovers from; each renders as one log line.
#[derive(Clone, Copy, Debug, PartialEq, Eq, Structural)]
pub enum Fault {
    PreflightUnreachable,
    PreflightRejected,
    PreflightUnparseable,
    SocketUnavailable,
    AuthRejected,
    AuthAlreadyLoggedIn,
    PairingNoSuchUser,
    PairingSelfPair,
    PairingAlreadyTied,
    FrameMalformed,
    TransportDropped,
    GenericRemoteFault,
}

impl Fault {
    /// The log line a recovered fault leaves behind.
    pub open spec fn line(self) -> Seq<char> {
        match self {
            Fault::PreflightUnreachable => AUTH_JOB_PRECONNECT_FAULT_GET@,
            Fault::PreflightRejected => AUTH_JOB_PRECONNECT_FAULT_DISAPPROVED@,
            Fault::PreflightUnparseable => AUTH_JOB_PRECONNECT_FAULT_PARSE@,
            Fault::SocketUnavailable => AUTH_JOB_CONNECT_FAULT@,
            Fault::AuthRejected => AUTH_JOB_CONNECT_AUTH_FAULT@,
            Fault::AuthAlreadyLoggedIn => AUTH_JOB_CONNECT_AUTH_FAULT_OVERAUTH@,
            Fault::PairingNoSuchUser => TIE_JOB_FAULT_NOUSER@,
            Fault::PairingSelfPair => TIE_JOB_FAULT_SELFTIE@,
            Fault::PairingAlreadyTied => TIE_JOB_FAULT_OVERTIE@,
            Fault::FrameMalformed => MESSAGE_CORRUPTED_ERROR@,
            Fault::TransportDropped => CONNECTION_DROPPED_ERROR@,
            Fault::GenericRemoteFault => RX_GENERAL_ERROR@,
        }
    }

    /// Renders the fault as its log line.
    pub fn log_line(&self) -> (r: &'static str)
        ensures
            r@ == self.line(),
    {
        match self {
            Fault::PreflightUnreachable => AUTH_JOB_PRECONNECT_FAULT_GET,
            Fault::PreflightRejected => AUTH_JOB_PRECONNECT_FAULT_DISAPPROVED,
            Fault::PreflightUnparseable => AUTH_JOB_PRECONNECT_FAULT_PARSE,
            Fault::SocketUnavailable => AUTH_JOB_CONNECT_FAULT,
            Fault::AuthRejected => AUTH_JOB_CONNECT_AUTH_FAULT,
            Fault::AuthAlreadyLoggedIn => AUTH_JOB_CONNECT_AUTH_FAULT_OVERAUTH,
            Fault::PairingNoSuchUser => TIE_JOB_FAULT_NOUSER,
            Fault::PairingSelfPair => TIE_JOB_FAULT_SELFTIE,
            Fault::PairingAlreadyTied => TIE_JOB_FAULT_OVERTIE,
            Fault::FrameMalformed => MESSAGE_CORRUPTED_ERROR,
            Fault::TransportDropped => CONNECTION_DROPPED_ERROR,
            Fault::GenericRemoteFault => RX_GENERAL_ERROR,
        }
    }
}

/// True of the characters the wire protocol uses as flags.
pub open spec fn flag_known(c: char) -> bool {
    ||| c == TX_AUTH_FLAG
    ||| c == TX_DROPME_FLAG
    ||| c == TX_TIE_INIT_FLAG
    ||| c == RX_AUTH_OK_FLAG
    ||| c == RX_AUTH_FAULT_FLAG
    ||| c == RX_AUTH_FAULT_OVERAUTH_FLAG
    ||| c == RX_TIE_OK_FLAG
    ||| c == RX_TIE_OK_WAIT_FLAG
    ||| c == RX_TIE_FAULT_NOUSER_FLAG
    ||| c == RX_TIE_FAULT_SELFTIE_FLAG
    ||| c == RX_TIE_FAULT_OVERTIE_FLAG
    ||| c == RXTX_UNTIE_FLAG
    ||| c == RXTX_OK_FLAG
    ||| c == RXTX_FAULT_FLAG
    ||| c == RXTX_MESSAGE_FLAG
}

/// The one-character string of a protocol flag.
pub fn flag_str(flag: char) -> (r: &'static str)
    requires
        flag_known(flag),
    ensures
        r@ == seq![flag],
{
    match flag {
        'A' => {
            proof {
                reveal_strlit("A");
                assert("A"@ =~= seq!['A']);
            }
            "A"
        },
        'X' => {
            proof {
                reveal_strlit("X");
                assert("X"@ =~= seq!['X']);
            }
            "X"
        },
        'T' => {
            proof {
                reveal_strlit("T");
                assert("T"@ =~= seq!['T']);
            }
            "T"
        },
        'O' => {
            proof {
                reveal_strlit("O");
                assert("O"@ =~= seq!['O']);
            }
            "O"
        },
        'D' => {
            proof {
                reveal_strlit("D");
                assert("D"@ =~= seq!['D']);
            }
            "D"
        },
        'I' => {
            proof {
                reveal_strlit("I");
                assert("I"@ =~= seq!['I']);
            }
            "I"
        },
        'S' => {
            proof {
                reveal_strlit("S");
                assert("S"@ =~= seq!['S']);
            }
            "S"
        },
        'W' => {
            proof {
                reveal_strlit("W");
                assert("W"@ =~= seq!['W']);
            }
            "W"
        },
        'N' => {
            proof {
                reveal_strlit("N");
                assert("N"@ =~= seq!['N']);
            }
            "N"
        },
        'M' => {
            proof {
                reveal_strlit("M");
                assert("M"@ =~= seq!['M']);
            }
            "M"
        },
        'R' => {
            proof {
                reveal_strlit("R");
                assert("R"@ =~= seq!['R']);
            }
            "R"
        },
        'C' => {
            proof {
                reveal_strlit("C");
                assert("C"@ =~= seq!['C']);
            }
            "C"
        },
        'Y' => {
            proof {
                reveal_strlit("Y");
                assert("Y"@ =~= seq!['Y']);
            }
            "Y"
        },
        'E' => {
            proof {
                reveal_strlit("E");
                assert("E"@ =~= seq!['E']);
            }
            "E"
        },
        'B' => {
            proof {
                reveal_strlit("B");
                assert("B"@ =~= seq!['B']);
            }
            "B"
        },
        _ => unreached(),
    }
}

/// Prepends the flag character to the body; the transport supplies framing, so
/// nothing is escaped.
pub fn encode(flag: char, body: &str) -> (r: String)
    requires
        flag_known(flag),
    ensures
        r@ == seq![flag] + body@,
{
    let f = flag_str(flag);
    String::from_str(f).concat(body)
}

/// Splits a frame into its flag character and body; an empty frame is
/// malformed.
pub fn decode(frame: &str) -> (r: Result<(char, String), Fault>)
    ensures
        frame@.len() == 0 ==> (r matches Err(f) && f == Fault::FrameMalformed),
        frame@.len() > 0 ==> (r matches Ok(p) && p.0 == frame@[0] && p.1@ == frame@.subrange(
            1,
            frame@.len() as int,
        )),
{
    let n = frame.unicode_len();
    if n == 0 {
        return Err(Fault::FrameMalformed);
    }
    let flag = frame.get_char(0);
    let body = frame.substring_char(1, n);
    Ok((flag, String::from_str(body)))
}

} // verus!
