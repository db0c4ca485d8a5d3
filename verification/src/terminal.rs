//! Switching the terminal's echo off while a password is typed, and on again.

use vstd::prelude::*;

verus! {

/// What switching the echo needs done.
#[derive(Debug, PartialEq)]
pub enum EchoRequest {
    /// Query the attributes of the terminal.
    Query,
    /// Change the local modes of the terminal to these, at once.
    Change { c_lflag: u32 },
    /// Tell the user that something went wrong.
    Print(String),
    /// Nothing.
    Nothing,
}

/// What an [`EchoRequest`] says.
pub enum EchoRequestView {
    Query,
    Change { c_lflag: u32 },
    Print(Seq<char>),
    Nothing,
}

impl View for EchoRequest {
    type V = EchoRequestView;

    open spec fn view(&self) -> EchoRequestView {
        match self {
            EchoRequest::Query => EchoRequestView::Query,
            EchoRequest::Change { c_lflag } => EchoRequestView::Change { c_lflag: *c_lflag },
            EchoRequest::Print(line) => EchoRequestView::Print(line@),
            EchoRequest::Nothing => EchoRequestView::Nothing,
        }
    }
}

/// Local modes with the echo on or off. `echo` is the bit, or are the bits,
/// that stand for it.
pub open spec fn with_echo(c_lflag: u32, echo: u32, active: bool) -> u32 {
    if active {
        c_lflag | echo
    } else {
        c_lflag & !echo
    }
}

/// Begin to switch the echo. Nothing is done unless the standard output is a
/// terminal.
pub fn toggle_terminal_echo(on_terminal: bool) -> (request: EchoRequest)
    ensures
        request@ == if on_terminal {
            EchoRequestView::Query
        } else {
            EchoRequestView::Nothing
        },
{
    if !on_terminal {
        return EchoRequest::Nothing;
    }
    EchoRequest::Query
}

/// Go on once the attributes have been queried. The query failed if `outcome`
/// is not zero.
pub fn echo_queried(outcome: i32, c_lflag: u32, echo: u32, active: bool) -> (request: EchoRequest)
    ensures
        request@ == if outcome != 0 {
            EchoRequestView::Print("error querying terminal attributes?!"@)
        } else {
            EchoRequestView::Change { c_lflag: with_echo(c_lflag, echo, active) }
        },
{
    if outcome != 0 {
        return EchoRequest::Print("error querying terminal attributes?!".to_owned());
    }
    if active {
        EchoRequest::Change { c_lflag: c_lflag | echo }
    } else {
        EchoRequest::Change { c_lflag: c_lflag & !echo }
    }
}

/// Go on once the attributes have been changed. The change failed if `outcome`
/// is not zero.
pub fn echo_set(outcome: i32) -> (request: EchoRequest)
    ensures
        request@ == if outcome != 0 {
            EchoRequestView::Print("error setting terminal attributes?!"@)
        } else {
            EchoRequestView::Nothing
        },
{
    if outcome != 0 {
        return EchoRequest::Print("error setting terminal attributes?!".to_owned());
    }
    EchoRequest::Nothing
}

/// The echo is on or off as wanted, and no other mode is touched.
pub proof fn law_only_the_echo_changes(c_lflag: u32, echo: u32, active: bool)
    ensures
        with_echo(c_lflag, echo, active) & echo == (if active {
            echo
        } else {
            0
        }),
        with_echo(c_lflag, echo, active) & !echo == c_lflag & !echo,
{
    assert((c_lflag | echo) & echo == echo) by (bit_vector);
    assert((c_lflag & !echo) & echo == 0) by (bit_vector);
    assert((c_lflag | echo) & !echo == c_lflag & !echo) by (bit_vector);
    assert((c_lflag & !echo) & !echo == c_lflag & !echo) by (bit_vector);
}

/// A terminal that echoed before is as it was, once the echo has been switched
/// off and on again.
pub proof fn law_echo_comes_back(c_lflag: u32, echo: u32)
    requires
        c_lflag & echo == echo,
    ensures
        with_echo(with_echo(c_lflag, echo, false), echo, true) == c_lflag,
{
    assert((c_lflag & !echo) | echo == c_lflag) by (bit_vector)
        requires
            c_lflag & echo == echo,
    ;
}

} // verus!
