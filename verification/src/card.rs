//! The card handle: how one is obtained, what it lets through to the driver
//! and how it is released.
//!
//! Nothing here talks to the device. An operation first yields the
//! [`Request`] that the driver has to carry out, or refuses; the caller
//! performs the request and hands the [`Reply`] back, from which the
//! operation draws its conclusion.

use vstd::prelude::*;
use vstd::string::*;
use crate::driver::{CardInfo, Reply, Request, CARD_ALIGNMENT, CARD_CHANNEL, CARD_READ_SIZE};
use crate::error::{CardError, Error, PreconditionError};
use crate::name::{terminator, FileName, CARD_FILENAME_MAX};
use crate::sector::{sector_image, sector_image_keeps_payload, SectorBuf, SAVE_SIZE};

verus! {

/// An open session with one file on the card.
///
/// A handle exists only for a file that the driver reported open, and it is
/// given up by [`Card::close`], which consumes it.
#[derive(Debug)]
pub struct Card {
    card_info: CardInfo,
    sector_size: i32,
}

/// What a handle stands for: the driver's bookkeeping and the sector size
/// found when the handle was made.
pub struct CardView {
    pub info: CardInfo,
    pub sector_size: i32,
}

impl View for Card {
    type V = CardView;

    closed spec fn view(&self) -> CardView {
        CardView { info: self.card_info, sector_size: self.sector_size }
    }
}

/// The driver call an [`Attempt`] is waiting on.
#[derive(Clone, Copy, Debug, PartialEq, Eq, Structural)]
pub enum Phase {
    Probe,
    Create,
    Open,
}

/// An open or a create that is under way.
#[derive(Clone, Copy, Debug, PartialEq, Eq)]
pub struct Attempt {
    /// The file to open or create.
    pub name: FileName,
    /// Whether the file is to be created if it does not exist.
    pub creating: bool,
    /// The call that is due.
    pub phase: Phase,
    /// The sector size that the probe found; meaningless before it.
    pub sector_size: i32,
}

/// Where an [`Attempt`] stands after a reply.
#[derive(Debug)]
pub enum Progress {
    /// Another call is due.
    Pending(Attempt),
    /// The file is open.
    Opened(Card),
    /// The attempt is over and no handle exists.
    Failed(CardError),
}

/// The model of [`Progress`].
pub enum Step {
    Pending(Attempt),
    Opened(CardView),
    Failed(CardError),
}

impl View for Progress {
    type V = Step;

    open spec fn view(&self) -> Step {
        match *self {
            Progress::Pending(attempt) => Step::Pending(attempt),
            Progress::Opened(card) => Step::Opened(card@),
            Progress::Failed(error) => Step::Failed(error),
        }
    }
}

/// Whether `len` is a whole number of sectors of `sector_size` bytes.
pub open spec fn is_sector_multiple(len: int, sector_size: int) -> bool {
    sector_size > 0 && len % sector_size == 0
}

/// The conclusion of a transfer or of any other single call: success on
/// `Ready`, the status itself as the error otherwise.
pub open spec fn status_result(status: CardError) -> Result<(), CardError> {
    if status == CardError::Ready {
        Ok(())
    } else {
        Err(status)
    }
}

/// What a read of `len` bytes into the buffer at `addr` comes to: refused
/// for a misaligned address, refused for a length that is no multiple of
/// `CARD_READ_SIZE` or that a transfer cannot express, and otherwise one
/// read of the whole length from the start of the file.
pub open spec fn read_plan(info: CardInfo, addr: int, len: int) -> Result<
    Request,
    PreconditionError,
> {
    if addr % (CARD_ALIGNMENT as int) != 0 {
        Err(PreconditionError::Misaligned)
    } else if len % (CARD_READ_SIZE as int) != 0 || len > i32::MAX {
        Err(PreconditionError::BadLength)
    } else {
        Ok(Request::Read { info, length: len as i32, offset: 0 })
    }
}

/// What a write of `len` bytes from the buffer at `addr` comes to: refused
/// for a misaligned address, refused for a length that is no whole number of
/// the handle's sectors or that a transfer cannot express, and otherwise one
/// write of the whole length at the start of the file.
pub open spec fn write_plan(view: CardView, addr: int, len: int) -> Result<
    Request,
    PreconditionError,
> {
    if addr % (CARD_ALIGNMENT as int) != 0 {
        Err(PreconditionError::Misaligned)
    } else if !is_sector_multiple(len, view.sector_size as int) || len > i32::MAX {
        Err(PreconditionError::BadLength)
    } else {
        Ok(Request::Write { info: view.info, length: len as i32, offset: 0 })
    }
}

impl Attempt {
    /// The attempt before any call: the probe is due.
    pub open spec fn start(name: FileName, creating: bool) -> Attempt {
        Attempt { name, creating, phase: Phase::Probe, sector_size: i32::MAX }
    }

    /// The call that is due.
    pub open spec fn spec_request(self) -> Request {
        match self.phase {
            Phase::Probe => Request::Probe { chan: CARD_CHANNEL },
            Phase::Create => Request::Create {
                chan: CARD_CHANNEL,
                name: self.name,
                size: self.sector_size as u32,
            },
            Phase::Open => Request::Open { chan: CARD_CHANNEL, name: self.name },
        }
    }

    /// The attempt after the reply to the call that was due.
    ///
    /// A failed probe ends the attempt. A successful one records the sector
    /// size and moves on to the create or the open. A create that finds the
    /// file already there falls back to opening it. Any other failure ends
    /// the attempt with the driver's status, and a successful create or open
    /// yields the handle.
    pub open spec fn step(self, reply: Reply) -> Step {
        match self.phase {
            Phase::Probe => if reply.status == CardError::Ready {
                Step::Pending(
                    Attempt {
                        name: self.name,
                        creating: self.creating,
                        phase: if self.creating {
                            Phase::Create
                        } else {
                            Phase::Open
                        },
                        sector_size: reply.sector_size,
                    },
                )
            } else {
                Step::Failed(reply.status)
            },
            Phase::Create => if reply.status == CardError::Exist {
                Step::Pending(
                    Attempt {
                        name: self.name,
                        creating: self.creating,
                        phase: Phase::Open,
                        sector_size: self.sector_size,
                    },
                )
            } else if reply.status == CardError::Ready {
                Step::Opened(CardView { info: reply.info, sector_size: self.sector_size })
            } else {
                Step::Failed(reply.status)
            },
            Phase::Open => if reply.status == CardError::Ready {
                Step::Opened(CardView { info: reply.info, sector_size: self.sector_size })
            } else {
                Step::Failed(reply.status)
            },
        }
    }

    /// The call to perform next.
    pub fn request(&self) -> (request: Request)
        ensures
            request == self.spec_request(),
    {
        match self.phase {
            Phase::Probe => Request::Probe { chan: CARD_CHANNEL },
            Phase::Create => Request::Create {
                chan: CARD_CHANNEL,
                name: self.name,
                size: #[verifier::truncate]
                (self.sector_size as u32),
            },
            Phase::Open => Request::Open { chan: CARD_CHANNEL, name: self.name },
        }
    }

    /// Takes the reply to the call that was due and says how the attempt
    /// goes on.
    pub fn advance(self, reply: Reply) -> (progress: Progress)
        ensures
            progress@ == self.step(reply),
    {
        match self.phase {
            Phase::Probe => {
                if reply.status.is_ready() {
                    let phase = if self.creating {
                        Phase::Create
                    } else {
                        Phase::Open
                    };
                    Progress::Pending(
                        Attempt {
                            name: self.name,
                            creating: self.creating,
                            phase,
                            sector_size: reply.sector_size,
                        },
                    )
                } else {
                    Progress::Failed(reply.status)
                }
            },
            Phase::Create => {
                if reply.status == CardError::Exist {
                    Progress::Pending(
                        Attempt {
                            name: self.name,
                            creating: self.creating,
                            phase: Phase::Open,
                            sector_size: self.sector_size,
                        },
                    )
                } else if reply.status.is_ready() {
                    Progress::Opened(Card { card_info: reply.info, sector_size: self.sector_size })
                } else {
                    Progress::Failed(reply.status)
                }
            },
            Phase::Open => {
                if reply.status.is_ready() {
                    Progress::Opened(Card { card_info: reply.info, sector_size: self.sector_size })
                } else {
                    Progress::Failed(reply.status)
                }
            },
        }
    }
}

impl Card {
    /// Begins opening the file `file_name`.
    ///
    /// A name longer than `CARD_FILENAME_MAX` bytes is refused: nothing is
    /// cut off, and no call is made.
    pub fn open(file_name: &str) -> (attempt: Result<Attempt, PreconditionError>)
        ensures
            attempt is Ok <==> file_name.spec_bytes().len() <= CARD_FILENAME_MAX,
            attempt is Err ==> attempt == Err::<Attempt, _>(PreconditionError::NameTooLong),
            attempt matches Ok(a) ==> {
                &&& a == Attempt::start(a.name, false)
                &&& a.name.wf()
                &&& a.name.name() == file_name.spec_bytes()
                &&& a.name.terminated() == file_name.spec_bytes() + terminator()
            },
    {
        match FileName::new(file_name) {
            Some(name) => Ok(
                Attempt { name, creating: false, phase: Phase::Probe, sector_size: i32::MAX },
            ),
            None => Err(PreconditionError::NameTooLong),
        }
    }

    /// Begins creating the file `file_name`, or opening it if it exists.
    ///
    /// A name longer than `CARD_FILENAME_MAX` bytes is refused: nothing is
    /// cut off, and no call is made.
    pub fn create(file_name: &str) -> (attempt: Result<Attempt, PreconditionError>)
        ensures
            attempt is Ok <==> file_name.spec_bytes().len() <= CARD_FILENAME_MAX,
            attempt is Err ==> attempt == Err::<Attempt, _>(PreconditionError::NameTooLong),
            attempt matches Ok(a) ==> {
                &&& a == Attempt::start(a.name, true)
                &&& a.name.wf()
                &&& a.name.name() == file_name.spec_bytes()
                &&& a.name.terminated() == file_name.spec_bytes() + terminator()
            },
    {
        match FileName::new(file_name) {
            Some(name) => Ok(
                Attempt { name, creating: true, phase: Phase::Probe, sector_size: i32::MAX },
            ),
            None => Err(PreconditionError::NameTooLong),
        }
    }

    /// The driver's bookkeeping for this handle.
    pub fn info(&self) -> (info: CardInfo)
        ensures
            info == self@.info,
    {
        self.card_info
    }

    /// The sector size of the device, as probed when the handle was made.
    pub fn sector_size(&self) -> (sector_size: i32)
        ensures
            sector_size == self@.sector_size,
    {
        self.sector_size
    }

    /// Plans a read of the file's first `len` bytes into the buffer that
    /// starts at address `addr`.
    pub fn read(&self, addr: usize, len: usize) -> (plan: Result<Request, PreconditionError>)
        ensures
            plan == read_plan(self@.info, addr as int, len as int),
    {
        if addr % CARD_ALIGNMENT != 0 {
            return Err(PreconditionError::Misaligned);
        }
        if len % CARD_READ_SIZE != 0 || len > i32::MAX as usize {
            return Err(PreconditionError::BadLength);
        }
        Ok(Request::Read { info: self.card_info, length: len as i32, offset: 0 })
    }

    /// Plans a write of the `len` bytes of the buffer that starts at address
    /// `addr` to the start of the file.
    pub fn write(&self, addr: usize, len: usize) -> (plan: Result<Request, PreconditionError>)
        ensures
            plan == write_plan(self@, addr as int, len as int),
    {
        if addr % CARD_ALIGNMENT != 0 {
            return Err(PreconditionError::Misaligned);
        }
        if self.sector_size <= 0 || len > i32::MAX as usize {
            return Err(PreconditionError::BadLength);
        }
        if len % (self.sector_size as usize) != 0 {
            return Err(PreconditionError::BadLength);
        }
        Ok(Request::Write { info: self.card_info, length: len as i32, offset: 0 })
    }

    /// Concludes a read or a write from the driver's reply: the handle takes
    /// over the bookkeeping as the driver left it, whatever the status, and
    /// the status decides the result.
    pub fn complete(&mut self, reply: &Reply) -> (done: Result<(), CardError>)
        ensures
            final(self)@ == (CardView { info: reply.info, sector_size: old(self)@.sector_size }),
            done == status_result(reply.status),
    {
        self.card_info = reply.info;
        if reply.status.is_ready() {
            Ok(())
        } else {
            Err(reply.status)
        }
    }

    /// Plans the read that fetches a record: one whole sector buffer, which
    /// the caller supplies at an aligned address.
    pub fn deserialize_read(&self) -> (request: Request)
        ensures
            request == (Request::Read { info: self@.info, length: SAVE_SIZE as i32, offset: 0 }),
            Ok::<Request, PreconditionError>(request) == read_plan(self@.info, 0, SAVE_SIZE as int),
    {
        Request::Read { info: self.card_info, length: SAVE_SIZE as i32, offset: 0 }
    }

    /// Concludes the decoding of a record that was read: a record that could
    /// not be decoded is an `Encoding` error.
    pub fn deserialized<T>(decoded: Option<T>) -> (record: Result<T, CardError>)
        ensures
            decoded matches Some(value) ==> record == Ok::<T, CardError>(value),
            decoded is None ==> record == Err::<T, CardError>(CardError::Encoding),
    {
        match decoded {
            Some(value) => Ok(value),
            None => Err(CardError::Encoding),
        }
    }

    /// Plans the write that stores an encoded record: the sector image of
    /// the encoding, and the write of that whole image.
    ///
    /// `encoded` is `None` when the record could not be encoded. That, and
    /// an encoding longer than a sector buffer, is an `Encoding` error. A
    /// handle whose sector size does not divide the sector buffer refuses
    /// the write.
    pub fn serialize_write(&self, encoded: Option<&[u8]>) -> (plan: Result<
        (SectorBuf, Request),
        Error,
    >)
        ensures
            match plan {
                Ok((image, request)) => {
                    &&& serialize_refusal(encoded, self@.sector_size as int) is None
                    &&& image.wf()
                    &&& image@ == sector_image(encoded->Some_0@)
                    &&& Ok::<Request, PreconditionError>(request) == write_plan(
                        self@,
                        0,
                        SAVE_SIZE as int,
                    )
                },
                Err(error) => serialize_refusal(encoded, self@.sector_size as int) == Some(error),
            },
    {
        let payload = match encoded {
            Some(payload) => payload,
            None => {
                return Err(Error::Card(CardError::Encoding));
            },
        };
        let image = match SectorBuf::from_payload(payload) {
            Some(image) => image,
            None => {
                return Err(Error::Card(CardError::Encoding));
            },
        };
        if self.sector_size <= 0 || SAVE_SIZE % (self.sector_size as usize) != 0 {
            return Err(Error::Precondition(PreconditionError::BadLength));
        }
        Ok((image, Request::Write { info: self.card_info, length: SAVE_SIZE as i32, offset: 0 }))
    }

    /// Releases the handle: the one close that the driver is owed for it.
    pub fn close(self) -> (request: Request)
        ensures
            request == (Request::Close { info: self@.info }),
    {
        Request::Close { info: self.card_info }
    }
}

/// Whether there is an encoding and it fits a sector buffer.
pub open spec fn fits_sector(encoded: Option<&[u8]>) -> bool {
    encoded matches Some(payload) && payload@.len() <= SAVE_SIZE
}

/// Why an encoded record is not written, if it is not: an encoding that is
/// missing or too long is an `Encoding` error, and a sector size that does
/// not divide the sector buffer makes the length a bad one.
pub open spec fn serialize_refusal(encoded: Option<&[u8]>, sector_size: int) -> Option<Error> {
    if !fits_sector(encoded) {
        Some(Error::Card(CardError::Encoding))
    } else if !is_sector_multiple(SAVE_SIZE as int, sector_size) {
        Some(Error::Precondition(PreconditionError::BadLength))
    } else {
        None
    }
}

/// How an attempt ends on a given result.
pub open spec fn finish(outcome: Result<CardView, CardError>) -> Step {
    match outcome {
        Ok(view) => Step::Opened(view),
        Err(error) => Step::Failed(error),
    }
}

/// What an open comes to, given the driver's replies to the probe and to
/// the open. The reply to a call that is never made plays no part.
pub open spec fn open_outcome(probe: Reply, opened: Reply) -> Result<CardView, CardError> {
    if probe.status != CardError::Ready {
        Err(probe.status)
    } else if opened.status != CardError::Ready {
        Err(opened.status)
    } else {
        Ok(CardView { info: opened.info, sector_size: probe.sector_size })
    }
}

/// What a create comes to, given the driver's replies to the probe, to the
/// create and to the open that a create of an existing file falls back to.
/// The reply to a call that is never made plays no part.
pub open spec fn create_outcome(probe: Reply, created: Reply, opened: Reply) -> Result<
    CardView,
    CardError,
> {
    if probe.status != CardError::Ready {
        Err(probe.status)
    } else if created.status == CardError::Exist {
        open_outcome(probe, opened)
    } else if created.status != CardError::Ready {
        Err(created.status)
    } else {
        Ok(CardView { info: created.info, sector_size: probe.sector_size })
    }
}

/// An open probes the channel first. A failed probe ends it with the
/// probe's status and no further call; otherwise it opens the named file
/// and ends as `open_outcome` says.
pub proof fn open_probes_then_opens(name: FileName, probe: Reply, opened: Reply)
    ensures
        ({
            let start = Attempt::start(name, false);
            let end = finish(open_outcome(probe, opened));
            &&& start.spec_request() == (Request::Probe { chan: CARD_CHANNEL })
            &&& probe.status != CardError::Ready ==> start.step(probe) == end
            &&& probe.status == CardError::Ready ==> {
                &&& start.step(probe) matches Step::Pending(opening)
                &&& opening.spec_request() == (Request::Open { chan: CARD_CHANNEL, name })
                &&& opening.step(opened) == end
            }
        }),
{
}

/// A create probes the channel first. A failed probe ends it with the
/// probe's status and no further call; otherwise it asks for a file of one
/// sector. If the file is already there it opens that file instead, and in
/// every case it ends as `create_outcome` says.
pub proof fn create_probes_creates_then_falls_back(
    name: FileName,
    probe: Reply,
    created: Reply,
    opened: Reply,
)
    ensures
        ({
            let start = Attempt::start(name, true);
            let end = finish(create_outcome(probe, created, opened));
            &&& start.spec_request() == (Request::Probe { chan: CARD_CHANNEL })
            &&& probe.status != CardError::Ready ==> start.step(probe) == end
            &&& probe.status == CardError::Ready ==> {
                &&& start.step(probe) matches Step::Pending(creating)
                &&& creating.spec_request() == (Request::Create {
                    chan: CARD_CHANNEL,
                    name,
                    size: probe.sector_size as u32,
                })
                &&& created.status != CardError::Exist ==> creating.step(created) == end
                &&& created.status == CardError::Exist ==> {
                    &&& creating.step(created) matches Step::Pending(opening)
                    &&& opening.spec_request() == (Request::Open { chan: CARD_CHANNEL, name })
                    &&& opening.step(opened) == end
                }
            }
        }),
{
}

/// Creation is idempotent: creating a file that exists is opening it. So a
/// create never fails because the file is there, and it yields the handle
/// that an open of the same name yields.
pub proof fn creation_is_idempotent(probe: Reply, created: Reply, opened: Reply)
    requires
        created.status == CardError::Exist,
    ensures
        create_outcome(probe, created, opened) == open_outcome(probe, opened),
        probe.status == CardError::Ready && opened.status == CardError::Ready ==> create_outcome(
            probe,
            created,
            opened,
        ) == Ok::<CardView, CardError>(
            CardView { info: opened.info, sector_size: probe.sector_size },
        ),
{
}

/// A create ends in `Exist` only when the driver gives that status to the
/// probe or to the open of the existing file.
pub proof fn create_fails_with_exist_only_from_probe_or_open(
    probe: Reply,
    created: Reply,
    opened: Reply,
)
    requires
        create_outcome(probe, created, opened) == Err::<CardView, CardError>(CardError::Exist),
    ensures
        probe.status == CardError::Exist || (created.status == CardError::Exist && opened.status
            == CardError::Exist),
{
}

/// A handle exists only after the driver reported `Ready` to the probe and
/// to the call that opened the file, and a failure is always the status of
/// the call that failed.
pub proof fn handle_only_from_ready_driver(probe: Reply, created: Reply, opened: Reply)
    ensures
        open_outcome(probe, opened) is Ok <==> probe.status == CardError::Ready && opened.status
            == CardError::Ready,
        create_outcome(probe, created, opened) is Ok <==> probe.status == CardError::Ready && (
        created.status == CardError::Ready || (created.status == CardError::Exist && opened.status
            == CardError::Ready)),
        open_outcome(probe, opened) matches Err(error) ==> error != CardError::Ready && (error
            == probe.status || error == opened.status),
        create_outcome(probe, created, opened) matches Err(error) ==> error != CardError::Ready
            && (error == probe.status || error == created.status || error == opened.status),
{
}

/// A read is refused exactly for a misaligned buffer, a length that is no
/// multiple of `CARD_READ_SIZE`, or a length beyond one transfer, and a
/// refused read comes with no request.
pub proof fn read_refuses_exactly_bad_buffers(info: CardInfo, addr: int, len: int)
    ensures
        read_plan(info, addr, len) is Err <==> addr % (CARD_ALIGNMENT as int) != 0 || len % (
        CARD_READ_SIZE as int) != 0 || len > i32::MAX,
        read_plan(info, addr, len) matches Ok(request) ==> request == (Request::Read {
            info,
            length: len as i32,
            offset: 0,
        }),
{
}

/// A write is refused exactly for a misaligned buffer, a length that is no
/// whole number of the handle's sectors, or a length beyond one transfer,
/// and a refused write comes with no request.
pub proof fn write_refuses_exactly_bad_buffers(view: CardView, addr: int, len: int)
    ensures
        write_plan(view, addr, len) is Err <==> addr % (CARD_ALIGNMENT as int) != 0
            || !is_sector_multiple(len, view.sector_size as int) || len > i32::MAX,
        write_plan(view, addr, len) matches Ok(request) ==> request == (Request::Write {
            info: view.info,
            length: len as i32,
            offset: 0,
        }),
{
}

/// A stored record heads what is fetched. The write that stores an encoded
/// record and the read that fetches one cover the same bytes of the file,
/// one whole sector buffer from its start; the image written is as long as
/// that, and the encoding is its head. So a device that hands back what was
/// written hands back the encoding, followed by zero bytes.
pub proof fn stored_record_heads_what_is_fetched(
    view: CardView,
    payload: Seq<u8>,
    written: Reply,
)
    requires
        payload.len() <= SAVE_SIZE,
        is_sector_multiple(SAVE_SIZE as int, view.sector_size as int),
    ensures
        write_plan(view, 0, SAVE_SIZE as int) == Ok::<Request, PreconditionError>(
            Request::Write { info: view.info, length: SAVE_SIZE as i32, offset: 0 },
        ),
        read_plan(written.info, 0, SAVE_SIZE as int) == Ok::<Request, PreconditionError>(
            Request::Read { info: written.info, length: SAVE_SIZE as i32, offset: 0 },
        ),
        sector_image(payload).len() == SAVE_SIZE,
        sector_image(payload).subrange(0, payload.len() as int) == payload,
        forall|i: int| payload.len() <= i < SAVE_SIZE ==> sector_image(payload)[i] == 0u8,
{
    sector_image_keeps_payload(payload);
}

/// One use of a handle between its making and its release.
pub enum Transfer {
    Read { addr: int, len: int },
    Write { addr: int, len: int },
}

/// The requests that one handle gives rise to from its first use to its
/// release: one for each transfer that is not refused, in order, and then
/// the close. Each use comes with the reply that the driver gives if the
/// transfer is made, whatever its status.
pub open spec fn lifetime(view: CardView, uses: Seq<(Transfer, Reply)>) -> Seq<Request>
    decreases uses.len(),
{
    if uses.len() == 0 {
        seq![Request::Close { info: view.info }]
    } else {
        let plan = match uses[0].0 {
            Transfer::Read { addr, len } => read_plan(view.info, addr, len),
            Transfer::Write { addr, len } => write_plan(view, addr, len),
        };
        match plan {
            Ok(request) => seq![request] + lifetime(
                CardView { info: uses[0].1.info, sector_size: view.sector_size },
                uses.drop_first(),
            ),
            Err(_) => lifetime(view, uses.drop_first()),
        }
    }
}

/// The requests of several handles, one lifetime after the other.
pub open spec fn lifetimes(handles: Seq<(CardView, Seq<(Transfer, Reply)>)>) -> Seq<Request>
    decreases handles.len(),
{
    if handles.len() == 0 {
        Seq::<Request>::empty()
    } else {
        lifetime(handles[0].0, handles[0].1) + lifetimes(handles.drop_first())
    }
}

/// The number of closes among `requests`.
pub open spec fn closes(requests: Seq<Request>) -> nat
    decreases requests.len(),
{
    if requests.len() == 0 {
        0
    } else {
        closes(requests.drop_last()) + if requests.last() is Close {
            1nat
        } else {
            0nat
        }
    }
}

/// The closes of two runs of requests add up.
pub proof fn closes_add_up(a: Seq<Request>, b: Seq<Request>)
    ensures
        closes(a + b) == closes(a) + closes(b),
    decreases b.len(),
{
    if b.len() == 0 {
        assert(a + b =~= a);
    } else {
        assert((a + b).drop_last() =~= a + b.drop_last());
        assert((a + b).last() == b.last());
        closes_add_up(a, b.drop_last());
    }
}

/// A handle is closed exactly once, at the end of its lifetime, whatever
/// transfers were made or refused and whatever the driver replied to them.
pub proof fn handle_is_closed_exactly_once(view: CardView, uses: Seq<(Transfer, Reply)>)
    ensures
        closes(lifetime(view, uses)) == 1,
        lifetime(view, uses).len() >= 1,
        lifetime(view, uses).last() is Close,
    decreases uses.len(),
{
    if uses.len() == 0 {
        let only = seq![Request::Close { info: view.info }];
        assert(only.drop_last() =~= Seq::<Request>::empty());
        assert(closes(only.drop_last()) == 0);
    } else {
        let plan = match uses[0].0 {
            Transfer::Read { addr, len } => read_plan(view.info, addr, len),
            Transfer::Write { addr, len } => write_plan(view, addr, len),
        };
        match plan {
            Ok(request) => {
                let next = CardView { info: uses[0].1.info, sector_size: view.sector_size };
                handle_is_closed_exactly_once(next, uses.drop_first());
                closes_add_up(seq![request], lifetime(next, uses.drop_first()));
                assert(seq![request].drop_last() =~= Seq::<Request>::empty());
                assert(closes(seq![request].drop_last()) == 0);
                assert(!(request is Close));
                assert(closes(seq![request]) == 0);
            },
            Err(_) => {
                handle_is_closed_exactly_once(view, uses.drop_first());
            },
        }
    }
}

/// Releasing as many handles as were made takes exactly that many closes.
pub proof fn as_many_closes_as_handles(handles: Seq<(CardView, Seq<(Transfer, Reply)>)>)
    ensures
        closes(lifetimes(handles)) == handles.len(),
    decreases handles.len(),
{
    if handles.len() == 0 {
    } else {
        handle_is_closed_exactly_once(handles[0].0, handles[0].1);
        as_many_closes_as_handles(handles.drop_first());
        closes_add_up(lifetime(handles[0].0, handles[0].1), lifetimes(handles.drop_first()));
    }
}

} // verus!
