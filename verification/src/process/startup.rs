//! The start of a router process: what it says when it is ready, and the frames in which
//! the two sides say it.

use vstd::prelude::*;

use crate::ids::Uuid;
use crate::net::{parsed_url, Host, HostModel, UrlModel, UrlParts};
use crate::process::{
    router_url, router_url_text, validate_router_url, BindAddress, RouterLaunchError,
    ShareRequest, TlsSettings, MAX_STARTUP_FRAME_BYTES,
};
use crate::text::same_text;

verus! {

/// How a router is to be started.
#[derive(Debug, PartialEq)]
pub struct StartOptions {
    pub bind: BindAddress,
    pub share: ShareRequest,
    pub tls: Option<TlsSettings>,
    pub background: bool,
    pub instance_id: Option<Uuid>,
}

/// What a router says when it is ready.
#[derive(Debug, PartialEq)]
pub struct StartupReady {
    pub instance_id: Uuid,
    pub control_url: String,
}

/// What the launcher answers a router that is ready.
#[derive(Clone, Copy, Debug, PartialEq, Eq, Structural)]
pub struct StartupAck {
    pub instance_id: Uuid,
}

/// A router that can be acknowledged: it has an instance and a URL of its endpoint.
pub open spec fn ready_ok(ready: StartupReady) -> bool {
    ready.instance_id.value != 0 && router_url_text(ready.control_url@)
}

impl StartupReady {
    /// Refuses a router that cannot be acknowledged.
    pub fn validate(&self) -> (verdict: Result<(), RouterLaunchError>)
        ensures
            verdict == if ready_ok(*self) {
                Ok::<(), RouterLaunchError>(())
            } else {
                Err(RouterLaunchError::StartupProtocol)
            },
    {
        if self.instance_id.is_nil() || validate_router_url(self.control_url.as_str()).is_err() {
            return Err(RouterLaunchError::StartupProtocol);
        }
        Ok(())
    }

    /// Refuses an acknowledgement that is meant for another instance.
    pub fn accepts(&self, ack: StartupAck) -> (verdict: Result<(), RouterLaunchError>)
        ensures
            verdict == if ack.instance_id == self.instance_id {
                Ok::<(), RouterLaunchError>(())
            } else {
                Err(RouterLaunchError::StartupProtocol)
            },
    {
        if ack.instance_id != self.instance_id {
            return Err(RouterLaunchError::StartupProtocol);
        }
        Ok(())
    }
}

/// What came of the wait for a router's first line.
#[derive(Debug, PartialEq)]
pub enum StartupRead {
    /// The foreground was interrupted.
    Interrupted,
    /// There was no line in time.
    TimedOut,
    /// The line could not be read.
    Broken,
    /// What the line is decoded to, nothing where it tells of no router.
    Line(Option<StartupReady>),
}

/// The router that became ready, or why none did.
pub open spec fn became_ready(read: StartupRead) -> Result<StartupReady, RouterLaunchError> {
    match read {
        StartupRead::Interrupted => Err(RouterLaunchError::Interrupted),
        StartupRead::TimedOut => Err(RouterLaunchError::StartupTimeout),
        StartupRead::Line(Some(ready)) => if ready_ok(ready) {
            Ok(ready)
        } else {
            Err(RouterLaunchError::StartupProtocol)
        },
        _ => Err(RouterLaunchError::StartupProtocol),
    }
}

/// The router that became ready.
pub fn accept_ready(read: StartupRead) -> (ready: Result<StartupReady, RouterLaunchError>)
    ensures
        ready == became_ready(read),
{
    match read {
        StartupRead::Interrupted => Err(RouterLaunchError::Interrupted),
        StartupRead::TimedOut => Err(RouterLaunchError::StartupTimeout),
        StartupRead::Broken => Err(RouterLaunchError::StartupProtocol),
        StartupRead::Line(None) => Err(RouterLaunchError::StartupProtocol),
        StartupRead::Line(Some(ready)) => match ready.validate() {
            Ok(()) => Ok(ready),
            Err(error) => Err(error),
        },
    }
}

/// What came of writing a line to the other side of a startup.
#[derive(Clone, Copy, Debug, PartialEq, Eq, Structural)]
pub enum StartupWrite {
    Written,
    TimedOut,
    Broken,
}

/// Refuses a line that did not reach the other side in time.
pub fn check_startup_write(write: StartupWrite) -> (verdict: Result<(), RouterLaunchError>)
    ensures
        verdict == (match write {
            StartupWrite::Written => Ok::<(), RouterLaunchError>(()),
            StartupWrite::TimedOut => Err(RouterLaunchError::StartupTimeout),
            StartupWrite::Broken => Err(RouterLaunchError::StartupProtocol),
        }),
{
    match write {
        StartupWrite::Written => Ok(()),
        StartupWrite::TimedOut => Err(RouterLaunchError::StartupTimeout),
        StartupWrite::Broken => Err(RouterLaunchError::StartupProtocol),
    }
}

/// The endpoint that a router reports is the one that it was told to serve: the public
/// URL under TLS, else one of the machine itself, at the port that was asked for.
pub open spec fn control_url_ok(value: Seq<char>, url: UrlModel, options: StartOptions) -> bool {
    &&& router_url(url)
    &&& match options.tls {
        Some(tls) => value == tls.public_url@ && url.scheme == "wss"@,
        None => {
            &&& url.scheme == "ws"@
            &&& url.host matches Some(HostModel::Ipv4(ip)) && ip.loopback()
            &&& options.bind.port != 0 ==> url.known_port == Some(options.bind.port)
        },
    }
}

/// The endpoint that a router reports, if it is the one that it was told to serve.
pub fn validate_ready_control_url(value: &str, options: &StartOptions) -> (url: Result<
    UrlParts,
    RouterLaunchError,
>)
    ensures
        match url {
            Ok(parts) => parsed_url(value@) == Some(parts.model()) && control_url_ok(
                value@,
                parts.model(),
                *options,
            ),
            Err(error) => error == RouterLaunchError::StartupProtocol && !(parsed_url(
                value@,
            ) matches Some(parts) && control_url_ok(value@, parts, *options)),
        },
{
    let url = match validate_router_url(value) {
        Ok(url) => url,
        Err(_) => return Err(RouterLaunchError::StartupProtocol),
    };
    match &options.tls {
        Some(tls) => {
            if !same_text(value, tls.public_url.as_str()) || !same_text(
                url.scheme.as_str(),
                "wss",
            ) {
                return Err(RouterLaunchError::StartupProtocol);
            }
        },
        None => {
            let loopback = match &url.host {
                Some(Host::Ipv4(ip)) => ip.is_loopback(),
                _ => false,
            };
            if !loopback || !same_text(url.scheme.as_str(), "ws") {
                return Err(RouterLaunchError::StartupProtocol);
            }
            if options.bind.port != 0 {
                match url.known_port {
                    Some(port) if port == options.bind.port => {},
                    _ => return Err(RouterLaunchError::StartupProtocol),
                }
            }
        },
    }
    Ok(url)
}

/// A frame is a line: the payload and a line feed.
pub open spec fn startup_line(payload: Seq<u8>) -> Seq<u8> {
    payload.push(10u8)
}

/// The line that a payload travels as; a payload beyond the limit is refused.
pub fn frame_startup(payload: Vec<u8>) -> (line: Result<Vec<u8>, RouterLaunchError>)
    ensures
        match line {
            Ok(bytes) => payload@.len() <= MAX_STARTUP_FRAME_BYTES && bytes@ == startup_line(
                payload@,
            ),
            Err(error) => payload@.len() > MAX_STARTUP_FRAME_BYTES && error
                == RouterLaunchError::StartupProtocol,
        },
{
    if payload.len() > MAX_STARTUP_FRAME_BYTES {
        return Err(RouterLaunchError::StartupProtocol);
    }
    let mut line = payload;
    line.push(10);
    Ok(line)
}

/// What reading a chunk of a frame leads to.
#[derive(Debug, PartialEq)]
pub enum FrameStep {
    /// The frame goes on.
    More,
    /// The frame is complete.
    Done(Vec<u8>),
}

/// The first place of a line feed, nothing where there is none.
pub open spec fn line_feed(bytes: Seq<u8>) -> Option<int> {
    if exists|i: int| 0 <= i < bytes.len() && #[trigger] bytes[i] == 10 && forall|j: int|
        0 <= j < i ==> #[trigger] bytes[j] != 10 {
        Some(
            choose|i: int|
                0 <= i < bytes.len() && #[trigger] bytes[i] == 10 && forall|j: int|
                    0 <= j < i ==> #[trigger] bytes[j] != 10,
        )
    } else {
        None
    }
}

/// ASCII white space.
pub open spec fn white_byte(byte: u8) -> bool {
    byte == 32 || byte == 9 || byte == 10 || byte == 12 || byte == 13
}

/// Every byte of a range is white space.
pub open spec fn white_from(bytes: Seq<u8>, from: int) -> bool {
    forall|i: int| from <= i < bytes.len() ==> white_byte(#[trigger] bytes[i])
}

/// What becomes of a frame when a chunk arrives, an empty one at the end of the input: a
/// line feed ends it, and behind the line feed the chunk holds nothing but white space; so
/// does the end of the input, unless the frame is empty. It never grows beyond the limit.
pub open spec fn frame_after(frame: Seq<u8>, chunk: Seq<u8>) -> Result<
    (Seq<u8>, bool),
    RouterLaunchError,
> {
    if chunk.len() == 0 {
        if frame.len() == 0 {
            Err(RouterLaunchError::StartupProtocol)
        } else {
            Ok((frame, true))
        }
    } else {
        match line_feed(chunk) {
            Some(end) => {
                let whole = frame + chunk.take(end);
                if white_from(chunk, end + 1) && whole.len() <= MAX_STARTUP_FRAME_BYTES {
                    Ok((whole, true))
                } else {
                    Err(RouterLaunchError::StartupProtocol)
                }
            },
            None => {
                let whole = frame + chunk;
                if whole.len() <= MAX_STARTUP_FRAME_BYTES {
                    Ok((whole, false))
                } else {
                    Err(RouterLaunchError::StartupProtocol)
                }
            },
        }
    }
}

/// A frame that is being read.
#[derive(Debug, PartialEq)]
pub struct StartupFrame {
    pub bytes: Vec<u8>,
}

proof fn first_line_feed(bytes: Seq<u8>, i: int)
    requires
        0 <= i < bytes.len(),
        bytes[i] == 10,
        forall|j: int| 0 <= j < i ==> #[trigger] bytes[j] != 10,
    ensures
        line_feed(bytes) == Some(i),
{
    let k = line_feed(bytes)->0;
    assert(bytes[i] == 10);
    if k < i {
        assert(bytes[k] != 10);
    } else if i < k {
        assert(bytes[i] != 10);
    }
}

impl StartupFrame {
    pub fn new() -> (frame: StartupFrame)
        ensures
            frame.bytes@.len() == 0,
    {
        StartupFrame { bytes: Vec::new() }
    }

    /// Takes a chunk of the frame, an empty one at the end of the input.
    pub fn read(&mut self, chunk: &[u8]) -> (step: Result<FrameStep, RouterLaunchError>)
        ensures
            match step {
                Ok(FrameStep::More) => frame_after(old(self).bytes@, chunk@) == Ok::<
                    _,
                    RouterLaunchError,
                >((final(self).bytes@, false)),
                Ok(FrameStep::Done(frame)) => frame_after(old(self).bytes@, chunk@) == Ok::<
                    _,
                    RouterLaunchError,
                >((frame@, true)),
                Err(error) => frame_after(old(self).bytes@, chunk@) == Err::<(Seq<u8>, bool), _>(
                    error,
                ),
            },
    {
        let mut whole: Vec<u8> = self.bytes.clone();
        assert(whole@ =~= self.bytes@);
        if chunk.len() == 0 {
            if whole.len() == 0 {
                return Err(RouterLaunchError::StartupProtocol);
            }
            return Ok(FrameStep::Done(whole));
        }
        let ghost before = whole@;
        let mut i: usize = 0;
        while i < chunk.len() && chunk[i] != 10
            invariant
                i <= chunk@.len(),
                whole@ == before + chunk@.take(i as int),
                forall|j: int| 0 <= j < i ==> #[trigger] chunk@[j] != 10,
            decreases chunk@.len() - i,
        {
            whole.push(chunk[i]);
            assert(whole@ =~= before + chunk@.take(i + 1));
            i += 1;
        }
        if i < chunk.len() {
            proof {
                first_line_feed(chunk@, i as int);
            }
            let mut k: usize = i + 1;
            while k < chunk.len()
                invariant
                    i < k <= chunk@.len(),
                    line_feed(chunk@) == Some(i as int),
                    before == old(self).bytes@,
                    chunk@.len() > 0,
                    forall|j: int| i < j < k ==> white_byte(#[trigger] chunk@[j]),
                decreases chunk@.len() - k,
            {
                let byte = chunk[k];
                if !(byte == 32 || byte == 9 || byte == 10 || byte == 12 || byte == 13) {
                    assert(!white_byte(chunk@[k as int]));
                    return Err(RouterLaunchError::StartupProtocol);
                }
                k += 1;
            }
            if whole.len() > MAX_STARTUP_FRAME_BYTES {
                return Err(RouterLaunchError::StartupProtocol);
            }
            return Ok(FrameStep::Done(whole));
        }
        assert(chunk@.take(i as int) =~= chunk@);
        assert(line_feed(chunk@) is None);
        if whole.len() > MAX_STARTUP_FRAME_BYTES {
            return Err(RouterLaunchError::StartupProtocol);
        }
        self.bytes = whole;
        Ok(FrameStep::More)
    }
}

/// The bytes of some chunks, one behind the other.
pub open spec fn all_bytes(chunks: Seq<Seq<u8>>) -> Seq<u8>
    decreases chunks.len(),
{
    if chunks.len() == 0 {
        Seq::empty()
    } else {
        chunks[0] + all_bytes(chunks.drop_first())
    }
}

/// What reading some chunks one after the other gives: a frame as soon as one is complete.
pub open spec fn read_chunks(frame: Seq<u8>, chunks: Seq<Seq<u8>>) -> Option<
    Result<Seq<u8>, RouterLaunchError>,
>
    decreases chunks.len(),
{
    if chunks.len() == 0 {
        None
    } else {
        match frame_after(frame, chunks[0]) {
            Err(error) => Some(Err(error)),
            Ok((whole, true)) => Some(Ok(whole)),
            Ok((whole, false)) => read_chunks(whole, chunks.drop_first()),
        }
    }
}

/// What is written as a line is read back, in whatever chunks it arrives.
pub proof fn startup_lines_are_read_back(frame: Seq<u8>, payload: Seq<u8>, chunks: Seq<Seq<u8>>)
    requires
        frame.len() + payload.len() <= MAX_STARTUP_FRAME_BYTES,
        forall|i: int| 0 <= i < payload.len() ==> #[trigger] payload[i] != 10,
        all_bytes(chunks) == startup_line(payload),
        forall|i: int| 0 <= i < chunks.len() ==> (#[trigger] chunks[i]).len() > 0,
    ensures
        read_chunks(frame, chunks) == Some(Ok::<Seq<u8>, RouterLaunchError>(frame + payload)),
    decreases chunks.len(),
{
    assert(all_bytes(chunks).len() == payload.len() + 1);
    assert(chunks.len() > 0);
    let head = chunks[0];
    let rest = chunks.drop_first();
    let line = startup_line(payload);
    assert(line == head + all_bytes(rest));
    assert forall|i: int| 0 <= i < head.len() implies #[trigger] head[i] == line[i] by {}
    assert(head.len() <= line.len());
    if head.len() == line.len() {
        first_line_feed(head, payload.len() as int);
        assert(head.take(payload.len() as int) =~= payload);
    } else {
        assert forall|i: int| 0 <= i < head.len() implies #[trigger] head[i] != 10 by {
            assert(head[i] == payload[i]);
        }
        assert(line_feed(head) is None);
        let tail = payload.skip(head.len() as int);
        assert(all_bytes(rest) =~= startup_line(tail)) by {
            assert(all_bytes(rest) =~= line.skip(head.len() as int));
        }
        assert forall|i: int| 0 <= i < rest.len() implies (#[trigger] rest[i]).len() > 0 by {
            assert(rest[i] == chunks[i + 1]);
        }
        startup_lines_are_read_back(frame + head, tail, rest);
        assert(frame + head + tail =~= frame + payload) by {
            assert(head =~= payload.take(head.len() as int));
        }
    }
}

} // verus!
