//! The protocol client. `ODrive` owns a byte stream and a timer and speaks
//! the device's line-oriented ASCII protocol over them: command writers
//! that frame and flush one line per call, a timeout-bounded line reader,
//! an integer reader with the silent zero fallback, and the polling routine
//! that waits for the device to come to rest.
use vstd::prelude::*;

use crate::enumerations::{Axis, AxisState, AXIS_STATE_IDLE};
use crate::stream::{ReadStream, StreamError, StreamModel, WriteStream};
use crate::text::{
    byte_char, chars_of_bytes, dec_rep, extend_bytes, fmt_u8, parse_i32_or_zero, parse_or_zero,
    trim_line, trimmed, Token,
};
use crate::timer::Timer;

verus! {

/// How long a line read keeps waiting for the next byte, in milliseconds.
pub const READ_TIMEOUT_MS: u64 = 1000;

/// The pause between two state polls, in milliseconds.
pub const POLL_INTERVAL_MS: u64 = 100;

/// How many state polls are made before the wait is given up.
pub const POLL_BUDGET: u32 = 100;

/// One outcome of the line reader against a stream that held `pre` and
/// holds `post` afterwards: the first `n` bytes carried no newline and
/// became the line, trimmed of surrounding whitespace either way.
///
/// Either the delimiter at position `n` was consumed, or the timeout
/// struck first while the stream stalled with `post` still pending.
pub open spec fn line_read_nl(pre: Seq<u8>, post: Seq<u8>, s: Seq<char>, n: int) -> bool {
    &&& 0 <= n < pre.len()
    &&& pre[n] == 10
    &&& forall|j: int| 0 <= j < n ==> pre[j] != 10
    &&& post == pre.skip(n + 1)
    &&& s == trimmed(chars_of_bytes(pre.take(n)))
}

pub open spec fn line_read_timeout(pre: Seq<u8>, post: Seq<u8>, s: Seq<char>, n: int) -> bool {
    &&& 0 <= n <= pre.len()
    &&& forall|j: int| 0 <= j < n ==> pre[j] != 10
    &&& post == pre.skip(n)
    &&& s == trimmed(chars_of_bytes(pre.take(n)))
}

/// What a completed line read may yield: the trimmed line up to the first
/// newline, or a trimmed partial line cut short by the timeout. A timeout
/// is possible only where the stream may stall on what is left, so against
/// a stream whose bytes are at hand it can strike only once they are
/// drained.
pub open spec fn line_read<T: StreamModel>(pre: Seq<u8>, post: Seq<u8>, s: Seq<char>) -> bool {
    exists|n: int|
        #![auto]
        line_read_nl(pre, post, s, n) || (line_read_timeout(pre, post, s, n) && T::may_stall(post))
}

/// What a failed read pass leaves behind: some newline-free prefix was
/// consumed before the stream failed.
pub open spec fn reads_consumed(pre: Seq<u8>, post: Seq<u8>) -> bool {
    exists|n: int|
        #![auto]
        0 <= n <= pre.len() && (forall|j: int| 0 <= j < n ==> pre[j] != 10) && post == pre.skip(n)
}

/// What an integer read yields: a line read whose text parsed as an `i32`,
/// or zero where it did not.
pub open spec fn int_read<T: StreamModel>(pre: Seq<u8>, post: Seq<u8>, v: i32) -> bool {
    exists|s: Seq<char>|
        #![auto]
        line_read::<T>(pre, post, s) && v == parse_or_zero(s)
}

/// The client for the ASCII protocol. It owns the stream for its whole
/// lifetime and issues one command at a time; the timer drives the line
/// timeout and the polling pause.
pub struct ODrive<T, C> {
    pub io_stream: T,
    pub timer: C,
}

impl<T, C> ODrive<T, C> {
    /// Wraps a caller-supplied stream and timer. The capabilities of `T`
    /// decide which parts of the API are available.
    pub fn new(io_stream: T, timer: C) -> (d: ODrive<T, C>)
        ensures
            d.io_stream == io_stream,
            d.timer == timer,
    {
        ODrive { io_stream, timer }
    }
}

impl<T: StreamModel, C> ODrive<T, C> {
    /// The bytes the stream will still deliver.
    pub open spec fn incoming(&self) -> Seq<u8> {
        self.io_stream.incoming()
    }

    /// The bytes handed to the stream so far.
    pub open spec fn sent(&self) -> Seq<u8> {
        self.io_stream.sent()
    }

    /// Whether the owned stream promises to keep succeeding.
    pub open spec fn reliable(&self) -> bool {
        self.io_stream.reliable()
    }
}

impl<T: WriteStream, C> ODrive<T, C> {
    /// Raw byte write, an escape hatch for operations the library does not
    /// model. Mixing it into a command exchange is the caller's risk.
    pub fn write(&mut self, buf: &[u8]) -> (r: Result<(), StreamError>)
        ensures
            final(self).incoming() == old(self).incoming(),
            final(self).reliable() == old(self).reliable(),
            old(self).reliable() ==> r is Ok,
            r is Ok ==> final(self).sent() == old(self).sent() + buf@,
    {
        self.io_stream.write_bytes(buf)
    }

    /// Forces buffered bytes out to the device.
    pub fn flush(&mut self) -> (r: Result<(), StreamError>)
        ensures
            final(self).incoming() == old(self).incoming(),
            final(self).sent() == old(self).sent(),
            final(self).reliable() == old(self).reliable(),
            old(self).reliable() ==> r is Ok,
    {
        self.io_stream.flush()
    }

    /// Writes one framed command line and flushes it. On success the whole
    /// line has been handed over; on failure nothing is promised about how
    /// much of it was.
    fn send_command(&mut self, cmd: &Vec<u8>) -> (r: Result<(), StreamError>)
        ensures
            final(self).incoming() == old(self).incoming(),
            final(self).reliable() == old(self).reliable(),
            old(self).reliable() ==> r is Ok,
            r is Ok ==> final(self).sent() == old(self).sent() + cmd@,
    {
        self.io_stream.write_bytes(cmd.as_slice())?;
        self.io_stream.flush()
    }
}

impl<T: ReadStream, C> ODrive<T, C> {
    /// Raw single-byte read, the escape hatch twin of `write`. Using it
    /// between line reads can leave a line partially consumed.
    pub fn read(&mut self) -> (r: Result<Option<u8>, StreamError>)
        ensures
            final(self).sent() == old(self).sent(),
            final(self).reliable() == old(self).reliable(),
            old(self).reliable() ==> r is Ok,
            match r {
                Ok(Some(b)) => old(self).incoming().len() > 0 && b == old(self).incoming()[0]
                    && final(self).incoming() == old(self).incoming().skip(1),
                Ok(None) => final(self).incoming() == old(self).incoming() && T::may_stall(
                    old(self).incoming(),
                ),
                Err(_) => final(self).incoming() == old(self).incoming(),
            },
    {
        self.io_stream.read_byte()
    }
}

impl<T: ReadStream, C: Timer> ODrive<T, C> {
    /// Reads the next response line. Bytes are accumulated until the
    /// newline; once the stream has stayed quiet past the timeout, the
    /// partial line is returned instead. Either way the line comes back
    /// trimmed of surrounding whitespace, and an empty or partial line is
    /// a valid "no response", never an error. Only a failure of the
    /// stream itself is one — and a reliable stream has none.
    #[verifier::loop_isolation(false)]
    pub fn read_string(&mut self) -> (r: Result<String, StreamError>)
        ensures
            final(self).sent() == old(self).sent(),
            final(self).reliable() == old(self).reliable(),
            old(self).reliable() ==> r is Ok,
            match r {
                Ok(s) => line_read::<T>(old(self).incoming(), final(self).incoming(), s@),
                Err(_) => reads_consumed(old(self).incoming(), final(self).incoming()),
            },
    {
        let mut line = String::new();
        self.timer.restart();
        let ghost pre = self.io_stream.incoming();
        let ghost mut n: int = 0;
        proof {
            assert(pre.take(0) =~= Seq::<u8>::empty());
            assert(chars_of_bytes(pre.take(0)) =~= Seq::<char>::empty());
        }
        loop
            invariant
                0 <= n <= pre.len(),
                pre == old(self).incoming(),
                self.io_stream.sent() == old(self).sent(),
                self.io_stream.reliable() == old(self).reliable(),
                self.io_stream.incoming() == pre.skip(n),
                line@ == chars_of_bytes(pre.take(n)),
                forall|j: int| 0 <= j < n ==> pre[j] != 10,
            decreases self.io_stream.incoming().len(), self.timer.budget(),
        {
            match self.io_stream.read_byte() {
                Err(e) => {
                    return Err(e);
                },
                Ok(Some(b)) => {
                    proof {
                        assert(pre.skip(n)[0] == pre[n]);
                    }
                    if b == 10 {
                        let t = trim_line(line.as_str());
                        proof {
                            assert(pre.skip(n).skip(1) =~= pre.skip(n + 1));
                            assert(line_read_nl(pre, self.io_stream.incoming(), t@, n));
                        }
                        return Ok(t);
                    }
                    line.push(b as char);
                    proof {
                        assert(pre.skip(n).skip(1) =~= pre.skip(n + 1));
                        assert(chars_of_bytes(pre.take(n)) + seq![byte_char(pre[n])]
                            =~= chars_of_bytes(pre.take(n + 1)));
                        n = n + 1;
                    }
                },
                Ok(None) => {
                    if self.timer.expired(READ_TIMEOUT_MS) {
                        let t = trim_line(line.as_str());
                        proof {
                            assert(line_read_timeout(pre, self.io_stream.incoming(), t@, n));
                        }
                        return Ok(t);
                    }
                },
            }
        }
    }

    /// Reads the next response as an `i32`. A response that is not a valid
    /// integer — empty, malformed, or diagnostic text — is reported as
    /// zero, never as an error, so a zero is ambiguous by design.
    pub fn read_int(&mut self) -> (r: Result<i32, StreamError>)
        ensures
            final(self).sent() == old(self).sent(),
            final(self).reliable() == old(self).reliable(),
            old(self).reliable() ==> r is Ok,
            match r {
                Ok(v) => int_read::<T>(old(self).incoming(), final(self).incoming(), v),
                Err(_) => reads_consumed(old(self).incoming(), final(self).incoming()),
            },
    {
        match self.read_string() {
            Ok(s) => {
                let v = parse_i32_or_zero(s.as_str());
                proof {
                    assert(line_read::<T>(old(self).incoming(), self.io_stream.incoming(), s@)
                        && v == parse_or_zero(s@));
                }
                Ok(v)
            },
            Err(e) => Err(e),
        }
    }
}

// ---------------------------------------------------------------------
// The exact wire image of each command.
// ---------------------------------------------------------------------

/// What stands in for an omitted optional argument: the single digit `0`.
pub open spec fn opt_arg(o: Option<&Token>) -> Seq<u8> {
    match o {
        Some(t) => t@,
        None => seq![48u8],
    }
}

/// `"<verb> <axis>"` — the opening of the four setpoint commands.
pub open spec fn cmd_head(verb: u8, axis: Axis) -> Seq<u8> {
    seq![verb, 32u8] + dec_rep(axis.code() as int)
}

/// `"p <axis> <position> <vel_ff> <cur_ff>\n"`.
pub open spec fn cmd_set_position_p(axis: Axis, position: Seq<u8>, vel_ff: Seq<u8>, cur_ff: Seq<u8>) -> Seq<u8> {
    cmd_head('p' as u8, axis) + seq![32u8] + position + seq![32u8] + vel_ff + seq![32u8] + cur_ff
        + seq![10u8]
}

/// `"q <axis> <position> <vel_limit> <cur_limit>\n"`.
pub open spec fn cmd_set_position_q(axis: Axis, position: Seq<u8>, vel_limit: Seq<u8>, cur_limit: Seq<u8>) -> Seq<u8> {
    cmd_head('q' as u8, axis) + seq![32u8] + position + seq![32u8] + vel_limit + seq![32u8]
        + cur_limit + seq![10u8]
}

/// `"v <axis> <velocity> <cur_ff>\n"`.
pub open spec fn cmd_set_velocity(axis: Axis, velocity: Seq<u8>, cur_ff: Seq<u8>) -> Seq<u8> {
    cmd_head('v' as u8, axis) + seq![32u8] + velocity + seq![32u8] + cur_ff + seq![10u8]
}

/// `"c <axis> <current>\n"`.
pub open spec fn cmd_set_current(axis: Axis, current: Seq<u8>) -> Seq<u8> {
    cmd_head('c' as u8, axis) + seq![32u8] + current + seq![10u8]
}

/// `"t <axis> <position>\n"`.
pub open spec fn cmd_set_trajectory(axis: Axis, position: Seq<u8>) -> Seq<u8> {
    cmd_head('t' as u8, axis) + seq![32u8] + position + seq![10u8]
}

/// `"<verb> axis<axis>"` — the opening of the two property commands.
pub open spec fn prop_head(verb: u8, axis: Axis) -> Seq<u8> {
    seq![verb, 32u8, 'a' as u8, 'x' as u8, 'i' as u8, 's' as u8] + dec_rep(axis.code() as int)
}

/// `".requested_state "`.
pub open spec fn requested_state_path() -> Seq<u8> {
    seq![
        '.' as u8,
        'r' as u8,
        'e' as u8,
        'q' as u8,
        'u' as u8,
        'e' as u8,
        's' as u8,
        't' as u8,
        'e' as u8,
        'd' as u8,
        '_' as u8,
        's' as u8,
        't' as u8,
        'a' as u8,
        't' as u8,
        'e' as u8,
        32u8,
    ]
}

/// `".current_state\n"`.
pub open spec fn current_state_path() -> Seq<u8> {
    seq![
        '.' as u8,
        'c' as u8,
        'u' as u8,
        'r' as u8,
        'r' as u8,
        'e' as u8,
        'n' as u8,
        't' as u8,
        '_' as u8,
        's' as u8,
        't' as u8,
        'a' as u8,
        't' as u8,
        'e' as u8,
        10u8,
    ]
}

/// `".encoder.vel_estimate\n"`.
pub open spec fn vel_estimate_path() -> Seq<u8> {
    seq![
        '.' as u8,
        'e' as u8,
        'n' as u8,
        'c' as u8,
        'o' as u8,
        'd' as u8,
        'e' as u8,
        'r' as u8,
        '.' as u8,
        'v' as u8,
        'e' as u8,
        'l' as u8,
        '_' as u8,
        'e' as u8,
        's' as u8,
        't' as u8,
        'i' as u8,
        'm' as u8,
        'a' as u8,
        't' as u8,
        'e' as u8,
        10u8,
    ]
}

/// `"w axis<axis>.requested_state <state>\n"`.
pub open spec fn cmd_request_state(axis: Axis, state: AxisState) -> Seq<u8> {
    prop_head('w' as u8, axis) + requested_state_path() + dec_rep(state.code as int) + seq![10u8]
}

/// `"r axis<axis>.current_state\n"`.
pub open spec fn cmd_read_state(axis: Axis) -> Seq<u8> {
    prop_head('r' as u8, axis) + current_state_path()
}

/// `"r axis<axis>.encoder.vel_estimate\n"`.
pub open spec fn cmd_read_velocity(axis: Axis) -> Seq<u8> {
    prop_head('r' as u8, axis) + vel_estimate_path()
}

// ---------------------------------------------------------------------
// Building the command lines.
// ---------------------------------------------------------------------

fn begin_cmd(verb: u8, axis: Axis) -> (v: Vec<u8>)
    ensures
        v@ == cmd_head(verb, axis),
{
    let mut cmd: Vec<u8> = Vec::new();
    cmd.push(verb);
    cmd.push(32);
    let mut ax = fmt_u8(axis.to_code());
    cmd.append(&mut ax);
    proof {
        assert(cmd@ =~= cmd_head(verb, axis));
    }
    cmd
}

fn begin_prop_cmd(verb: u8, axis: Axis) -> (v: Vec<u8>)
    ensures
        v@ == prop_head(verb, axis),
{
    let mut cmd: Vec<u8> = Vec::new();
    cmd.push(verb);
    cmd.push(32);
    cmd.push('a' as u8);
    cmd.push('x' as u8);
    cmd.push('i' as u8);
    cmd.push('s' as u8);
    let mut ax = fmt_u8(axis.to_code());
    cmd.append(&mut ax);
    proof {
        assert(cmd@ =~= prop_head(verb, axis));
    }
    cmd
}

fn push_arg(cmd: &mut Vec<u8>, arg: &Token)
    ensures
        final(cmd)@ == old(cmd)@ + seq![32u8] + arg@,
{
    cmd.push(32);
    extend_bytes(cmd, arg.as_bytes());
    proof {
        assert(final(cmd)@ =~= old(cmd)@ + seq![32u8] + arg@);
    }
}

fn push_opt_arg(cmd: &mut Vec<u8>, arg: Option<&Token>)
    ensures
        final(cmd)@ == old(cmd)@ + seq![32u8] + opt_arg(arg),
{
    cmd.push(32);
    match arg {
        Some(t) => {
            extend_bytes(cmd, t.as_bytes());
        },
        None => {
            cmd.push(48);
        },
    }
    proof {
        assert(final(cmd)@ =~= old(cmd)@ + seq![32u8] + opt_arg(arg));
    }
}

fn build_request_state_cmd(axis: Axis, state: AxisState) -> (v: Vec<u8>)
    ensures
        v@ == cmd_request_state(axis, state),
{
    let mut cmd = begin_prop_cmd('w' as u8, axis);
    cmd.push('.' as u8);
    cmd.push('r' as u8);
    cmd.push('e' as u8);
    cmd.push('q' as u8);
    cmd.push('u' as u8);
    cmd.push('e' as u8);
    cmd.push('s' as u8);
    cmd.push('t' as u8);
    cmd.push('e' as u8);
    cmd.push('d' as u8);
    cmd.push('_' as u8);
    cmd.push('s' as u8);
    cmd.push('t' as u8);
    cmd.push('a' as u8);
    cmd.push('t' as u8);
    cmd.push('e' as u8);
    cmd.push(32);
    let mut st = fmt_u8(state.code);
    cmd.append(&mut st);
    cmd.push(10);
    proof {
        assert(cmd@ =~= cmd_request_state(axis, state));
    }
    cmd
}

fn build_read_state_cmd(axis: Axis) -> (v: Vec<u8>)
    ensures
        v@ == cmd_read_state(axis),
{
    let mut cmd = begin_prop_cmd('r' as u8, axis);
    cmd.push('.' as u8);
    cmd.push('c' as u8);
    cmd.push('u' as u8);
    cmd.push('r' as u8);
    cmd.push('r' as u8);
    cmd.push('e' as u8);
    cmd.push('n' as u8);
    cmd.push('t' as u8);
    cmd.push('_' as u8);
    cmd.push('s' as u8);
    cmd.push('t' as u8);
    cmd.push('a' as u8);
    cmd.push('t' as u8);
    cmd.push('e' as u8);
    cmd.push(10);
    proof {
        assert(cmd@ =~= cmd_read_state(axis));
    }
    cmd
}

fn build_read_velocity_cmd(axis: Axis) -> (v: Vec<u8>)
    ensures
        v@ == cmd_read_velocity(axis),
{
    let mut cmd = begin_prop_cmd('r' as u8, axis);
    cmd.push('.' as u8);
    cmd.push('e' as u8);
    cmd.push('n' as u8);
    cmd.push('c' as u8);
    cmd.push('o' as u8);
    cmd.push('d' as u8);
    cmd.push('e' as u8);
    cmd.push('r' as u8);
    cmd.push('.' as u8);
    cmd.push('v' as u8);
    cmd.push('e' as u8);
    cmd.push('l' as u8);
    cmd.push('_' as u8);
    cmd.push('e' as u8);
    cmd.push('s' as u8);
    cmd.push('t' as u8);
    cmd.push('i' as u8);
    cmd.push('m' as u8);
    cmd.push('a' as u8);
    cmd.push('t' as u8);
    cmd.push('e' as u8);
    cmd.push(10);
    proof {
        assert(cmd@ =~= cmd_read_velocity(axis));
    }
    cmd
}

impl<T: WriteStream, C> ODrive<T, C> {
    /// Commands a position move with feed-forward terms, for a controller
    /// streaming setpoints. On success the stream has received exactly
    /// `p <axis> <position> <vel_ff> <cur_ff>\n`, an omitted feed-forward
    /// rendered as `0`; on failure the error is the stream's own and no
    /// recovery of a partial line is attempted.
    pub fn set_position_p(
        &mut self,
        axis: Axis,
        position: &Token,
        velocity_feed_forward: Option<&Token>,
        current_feed_forward: Option<&Token>,
    ) -> (r: Result<(), StreamError>)
        requires
            old(self).wf_args(position, velocity_feed_forward, current_feed_forward),
        ensures
            final(self).incoming() == old(self).incoming(),
            final(self).reliable() == old(self).reliable(),
            old(self).reliable() ==> r is Ok,
            r is Ok ==> final(self).sent() == old(self).sent() + cmd_set_position_p(
                axis,
                position@,
                opt_arg(velocity_feed_forward),
                opt_arg(current_feed_forward),
            ),
    {
        let mut cmd = begin_cmd('p' as u8, axis);
        push_arg(&mut cmd, position);
        push_opt_arg(&mut cmd, velocity_feed_forward);
        push_opt_arg(&mut cmd, current_feed_forward);
        cmd.push(10);
        self.send_command(&cmd)
    }

    /// Commands a position move under velocity and current limits, for one
    /// setpoint at a time. On success the stream has received exactly
    /// `q <axis> <position> <vel_limit> <cur_limit>\n`, an omitted limit
    /// rendered as `0`.
    pub fn set_position_q(
        &mut self,
        axis: Axis,
        position: &Token,
        velocity_limit: Option<&Token>,
        current_limit: Option<&Token>,
    ) -> (r: Result<(), StreamError>)
        requires
            old(self).wf_args(position, velocity_limit, current_limit),
        ensures
            final(self).incoming() == old(self).incoming(),
            final(self).reliable() == old(self).reliable(),
            old(self).reliable() ==> r is Ok,
            r is Ok ==> final(self).sent() == old(self).sent() + cmd_set_position_q(
                axis,
                position@,
                opt_arg(velocity_limit),
                opt_arg(current_limit),
            ),
    {
        let mut cmd = begin_cmd('q' as u8, axis);
        push_arg(&mut cmd, position);
        push_opt_arg(&mut cmd, velocity_limit);
        push_opt_arg(&mut cmd, current_limit);
        cmd.push(10);
        self.send_command(&cmd)
    }

    /// Commands a velocity setpoint. On success the stream has received
    /// exactly `v <axis> <velocity> <cur_ff>\n`, an omitted feed-forward
    /// rendered as `0`.
    pub fn set_velocity(
        &mut self,
        axis: Axis,
        velocity: &Token,
        current_feed_forward: Option<&Token>,
    ) -> (r: Result<(), StreamError>)
        requires
            velocity.wf(),
            current_feed_forward matches Some(t) ==> t.wf(),
        ensures
            final(self).incoming() == old(self).incoming(),
            final(self).reliable() == old(self).reliable(),
            old(self).reliable() ==> r is Ok,
            r is Ok ==> final(self).sent() == old(self).sent() + cmd_set_velocity(
                axis,
                velocity@,
                opt_arg(current_feed_forward),
            ),
    {
        let mut cmd = begin_cmd('v' as u8, axis);
        push_arg(&mut cmd, velocity);
        push_opt_arg(&mut cmd, current_feed_forward);
        cmd.push(10);
        self.send_command(&cmd)
    }

    /// Commands a current setpoint. On success the stream has received
    /// exactly `c <axis> <current>\n`.
    pub fn set_current(&mut self, axis: Axis, current: &Token) -> (r: Result<(), StreamError>)
        requires
            current.wf(),
        ensures
            final(self).incoming() == old(self).incoming(),
            final(self).reliable() == old(self).reliable(),
            old(self).reliable() ==> r is Ok,
            r is Ok ==> final(self).sent() == old(self).sent() + cmd_set_current(axis, current@),
    {
        let mut cmd = begin_cmd('c' as u8, axis);
        push_arg(&mut cmd, current);
        cmd.push(10);
        self.send_command(&cmd)
    }

    /// Commands a trajectory move to a position, the preferred command for
    /// general movement. On success the stream has received exactly
    /// `t <axis> <position>\n`.
    pub fn set_trajectory(&mut self, axis: Axis, position: &Token) -> (r: Result<
        (),
        StreamError,
    >)
        requires
            position.wf(),
        ensures
            final(self).incoming() == old(self).incoming(),
            final(self).reliable() == old(self).reliable(),
            old(self).reliable() ==> r is Ok,
            r is Ok ==> final(self).sent() == old(self).sent() + cmd_set_trajectory(
                axis,
                position@,
            ),
    {
        let mut cmd = begin_cmd('t' as u8, axis);
        push_arg(&mut cmd, position);
        cmd.push(10);
        self.send_command(&cmd)
    }
}

/// The bytes `k` polls of the device state put on the wire.
pub open spec fn repeat_cmd(c: Seq<u8>, k: int) -> Seq<u8>
    decreases k,
{
    if k <= 0 {
        Seq::empty()
    } else {
        repeat_cmd(c, k - 1) + c
    }
}

/// `k` integer reads in a row, none of which reported the idle state.
pub open spec fn nonidle_reads<T: StreamModel>(pre: Seq<u8>, post: Seq<u8>, k: int) -> bool
    decreases k,
{
    if k <= 0 {
        k == 0 && post == pre
    } else {
        exists|mid: Seq<u8>, v: i32|
            #![auto]
            nonidle_reads::<T>(pre, mid, k - 1) && int_read::<T>(mid, post, v) && v
                != AXIS_STATE_IDLE as i32
    }
}

/// What one waiting `run_state` call did, witnessed by the number of polls
/// `k`, the stream state `mid` before the last read, and the last value
/// `v` read: `k - 1` non-idle polls, then a final poll; it succeeded if
/// and only if the budget was not yet spent, and success means the last
/// poll reported idle.
pub open spec fn poll_outcome_at<T: StreamModel>(
    axis: Axis,
    pre: Seq<u8>,
    post: Seq<u8>,
    sent_pre: Seq<u8>,
    sent_post: Seq<u8>,
    done: bool,
    k: int,
    mid: Seq<u8>,
    v: i32,
) -> bool {
    &&& 1 <= k <= POLL_BUDGET as int
    &&& sent_post == sent_pre + repeat_cmd(cmd_read_state(axis), k)
    &&& nonidle_reads::<T>(pre, mid, k - 1)
    &&& int_read::<T>(mid, post, v)
    &&& (done ==> v == AXIS_STATE_IDLE as i32)
    &&& (done <==> k < POLL_BUDGET as int)
}

pub open spec fn poll_outcome<T: StreamModel>(
    axis: Axis,
    pre: Seq<u8>,
    post: Seq<u8>,
    sent_pre: Seq<u8>,
    sent_post: Seq<u8>,
    done: bool,
) -> bool {
    exists|k: int, mid: Seq<u8>, v: i32|
        #![auto]
        poll_outcome_at::<T>(axis, pre, post, sent_pre, sent_post, done, k, mid, v)
}

impl<T: ReadStream + WriteStream, C: Timer> ODrive<T, C> {
    /// Asks one axis for its estimated encoder velocity: writes
    /// `r axis<axis>.encoder.vel_estimate\n`, flushes, and reads the
    /// response line. One request/response exchange: if the write fails,
    /// its error is returned and no read is attempted.
    pub fn get_velocity(&mut self, axis: Axis) -> (r: Result<String, StreamError>)
        ensures
            final(self).reliable() == old(self).reliable(),
            old(self).reliable() ==> r is Ok,
            match r {
                Ok(s) => final(self).sent() == old(self).sent() + cmd_read_velocity(axis)
                    && line_read::<T>(old(self).incoming(), final(self).incoming(), s@),
                Err(_) => reads_consumed(old(self).incoming(), final(self).incoming())
                    && (final(self).incoming() != old(self).incoming() ==> final(self).sent()
                    == old(self).sent() + cmd_read_velocity(axis)),
            },
    {
        let cmd = build_read_velocity_cmd(axis);
        match self.send_command(&cmd) {
            Ok(()) => {},
            Err(e) => {
                proof {
                    assert(old(self).incoming().skip(0) =~= old(self).incoming());
                }
                return Err(e);
            },
        }
        self.read_string()
    }

    /// Requests an operating state for one axis: writes
    /// `w axis<axis>.requested_state <state>\n` once. With `wait` false
    /// that is all, and the call reports success. With `wait` true it
    /// polls: sleep one interval, write `r axis<axis>.current_state\n`,
    /// read an integer with the zero fallback, until the idle state is
    /// reported or the poll budget is spent. Exhausting the budget is a
    /// soft timeout reported as `false`, not an error; only a stream
    /// failure is one, and a reliable stream has none. Even on a failure,
    /// the response side was consumed only by whole non-idle polls and
    /// one last newline-free prefix.
    #[verifier::loop_isolation(false)]
    pub fn run_state(&mut self, axis: Axis, requested_state: AxisState, wait: bool) -> (r:
        Result<bool, StreamError>)
        ensures
            final(self).reliable() == old(self).reliable(),
            old(self).reliable() ==> r is Ok,
            match r {
                Ok(done) => {
                    if wait {
                        poll_outcome::<T>(
                            axis,
                            old(self).incoming(),
                            final(self).incoming(),
                            old(self).sent() + cmd_request_state(axis, requested_state),
                            final(self).sent(),
                            done,
                        )
                    } else {
                        done == true && final(self).sent() == old(self).sent()
                            + cmd_request_state(axis, requested_state) && final(self).incoming()
                            == old(self).incoming()
                    }
                },
                Err(_) => exists|j: int, mid: Seq<u8>|
                    #![auto]
                    0 <= j <= POLL_BUDGET as int && nonidle_reads::<T>(
                        old(self).incoming(),
                        mid,
                        j,
                    ) && reads_consumed(mid, final(self).incoming()),
            },
    {
        let wcmd = build_request_state_cmd(axis, requested_state);
        match self.send_command(&wcmd) {
            Ok(()) => {},
            Err(e) => {
                proof {
                    assert(old(self).incoming().skip(0) =~= old(self).incoming());
                    assert(nonidle_reads::<T>(old(self).incoming(), old(self).incoming(), 0));
                    assert(reads_consumed(old(self).incoming(), self.io_stream.incoming()));
                }
                return Err(e);
            },
        }
        if !wait {
            return Ok(true);
        }
        let rcmd = build_read_state_cmd(axis);
        let ghost pre = self.io_stream.incoming();
        let ghost sent0 = self.io_stream.sent();
        let mut timeout_ctr: u32 = POLL_BUDGET;
        let ghost mut polls: int = 0;
        loop
            invariant
                0 < timeout_ctr <= POLL_BUDGET,
                polls == POLL_BUDGET - timeout_ctr,
                self.io_stream.sent() == sent0 + repeat_cmd(rcmd@, polls),
                self.io_stream.reliable() == old(self).io_stream.reliable(),
                nonidle_reads::<T>(pre, self.io_stream.incoming(), polls),
            decreases timeout_ctr,
        {
            self.timer.sleep_ms(POLL_INTERVAL_MS);
            match self.send_command(&rcmd) {
                Ok(()) => {},
                Err(e) => {
                    proof {
                        let cur = self.io_stream.incoming();
                        assert(cur.skip(0) =~= cur);
                        assert(reads_consumed(cur, cur));
                    }
                    return Err(e);
                },
            }
            timeout_ctr = timeout_ctr - 1;
            let ghost mid = self.io_stream.incoming();
            let v = match self.read_int() {
                Ok(v) => v,
                Err(e) => {
                    return Err(e);
                },
            };
            proof {
                assert(int_read::<T>(mid, self.io_stream.incoming(), v));
            }
            proof {
                polls = polls + 1;
                assert(sent0 + repeat_cmd(rcmd@, polls - 1) + rcmd@ =~= sent0 + repeat_cmd(
                    rcmd@,
                    polls,
                ));
            }
            if v == AXIS_STATE_IDLE as i32 || timeout_ctr == 0 {
                let done = timeout_ctr > 0;
                proof {
                    assert(poll_outcome_at::<T>(
                        axis,
                        pre,
                        self.io_stream.incoming(),
                        sent0,
                        self.io_stream.sent(),
                        done,
                        polls,
                        mid,
                        v,
                    ));
                }
                return Ok(done);
            }
            proof {
                assert(nonidle_reads::<T>(pre, mid, polls - 1) && int_read::<T>(
                    mid,
                    self.io_stream.incoming(),
                    v,
                ) && v != AXIS_STATE_IDLE as i32);
                assert(nonidle_reads::<T>(pre, self.io_stream.incoming(), polls));
            }
        }
    }
}

impl<T: StreamModel, C> ODrive<T, C> {
    /// Validity of one required and two optional command arguments.
    pub open spec fn wf_args(&self, a: &Token, b: Option<&Token>, c: Option<&Token>) -> bool {
        &&& a.wf()
        &&& (b matches Some(t) ==> t.wf())
        &&& (c matches Some(t) ==> t.wf())
    }
}

} // verus!
