//! How a service reads the answer to an HTTP call it made.

use vstd::prelude::*;
use crate::text::{decimal, push_decimal};

verus! {

/// A status in 200..=299 counts as success.
pub open spec fn is_success(status: u16) -> bool {
    200 <= status < 300
}

/// The debug rendering of an optional status code: `Some(404)` or `None`.
pub open spec fn debug_status(status: Option<u16>) -> Seq<char> {
    match status {
        Some(s) => "Some("@ + decimal(s as nat) + ")"@,
        None => "None"@,
    }
}

/// What a call answers, from what came back: the status of the response
/// that arrived (`Ok`), or the status that a failed call carried (`Err`,
/// `None` when no response was received).
pub open spec fn response_outcome(res: Result<u16, Option<u16>>) -> Result<(), Seq<char>> {
    match res {
        Ok(s) => if is_success(s) {
            Ok(())
        } else {
            Err("Unexpected response status: "@ + decimal(s as nat))
        },
        Err(e) => Err("HTTP error: "@ + debug_status(e)),
    }
}

/// Turns the result of an HTTP call into `Ok(())` on a success status and
/// into an error message otherwise.
pub fn on_response(res: Result<u16, Option<u16>>) -> (r: Result<(), String>)
    ensures
        r is Ok <==> response_outcome(res) is Ok,
        r matches Err(m) ==> response_outcome(res) == Err::<(), Seq<char>>(m@),
        forall|s: u16| res == Ok::<u16, Option<u16>>(s) ==> (r is Ok <==> 200 <= s <= 299),
        res is Err ==> r is Err,
{
    match res {
        Ok(s) => {
            if 200 <= s && s < 300 {
                Ok(())
            } else {
                let mut m = String::new();
                m.append("Unexpected response status: ");
                push_decimal(&mut m, s as u32);
                Err(m)
            }
        },
        Err(e) => {
            let mut m = String::new();
            m.append("HTTP error: ");
            match e {
                Some(s) => {
                    m.append("Some(");
                    push_decimal(&mut m, s as u32);
                    m.append(")");
                    assert(m@ =~= "HTTP error: "@ + ("Some("@ + decimal(s as nat) + ")"@));
                },
                None => {
                    m.append("None");
                },
            }
            Err(m)
        },
    }
}

/// Every status from 200 through 299 is a success, and every other status,
/// like every failed call, is answered with an error.
pub proof fn lemma_success_is_exactly_2xx(s: u16, e: Option<u16>)
    ensures
        200 <= s <= 299 ==> response_outcome(Ok(s)) == Ok::<(), Seq<char>>(()),
        !(200 <= s <= 299) ==> response_outcome(Ok(s)) is Err,
        response_outcome(Err(e)) is Err,
{
}

} // verus!
