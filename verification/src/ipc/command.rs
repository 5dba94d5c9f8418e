//! Building a request and sending it.
use crate::handle::Handle;
use crate::ipc::layout::{
    buffer_header, command_header, header_command_id, header_normal_count,
    header_translate_count, lemma_header_fields, make_buffer_header, make_header,
    make_shared_handles_header, make_static_buffer_header, shared_handles_header,
    static_buffer_header, ThreadLocalStorage, BUFFER_RIGHT_READ, BUFFER_RIGHT_WRITE,
    CURRENT_PROCESS_ID_DESCRIPTOR,
};
use crate::ipc::parser::ThreadCommandParser;
use crate::platform::{sent, Kernel, Platform};
use crate::res::{check_kernel_code, CtrError, CtrResult};
use vstd::prelude::*;

verus! {

/// The words of the command with id `command_id` whose normal parameters are
/// `normal` and whose translate parameters are `translate`: the header, then
/// the normal parameters, then the translate parameters.
pub open spec fn command_words(command_id: u16, normal: Seq<u32>, translate: Seq<u32>) -> Seq<u32> {
    seq![command_header(command_id, normal.len() as u32, translate.len() as u32)] + normal
        + translate
}

/// The command buffer `buffer` after `words` have been written from its start.
pub open spec fn staged(buffer: Seq<u32>, words: Seq<u32>) -> Seq<u32> {
    Seq::new(buffer.len(), |i: int| if i < words.len() { words[i] } else { buffer[i] })
}

/// A command that was built and staged reads back as it was built: the header
/// gives the command id and the two counts, and the parameters follow it in
/// order, the normal ones first.
pub proof fn lemma_staged_command_reads_back(
    buffer: Seq<u32>,
    command_id: u16,
    normal: Seq<u32>,
    translate: Seq<u32>,
)
    requires
        buffer.len() == 64,
        normal.len() + translate.len() <= 63,
    ensures
        ({
            let read = staged(buffer, command_words(command_id, normal, translate));
            &&& read.len() == 64
            &&& header_command_id(read[0]) == command_id
            &&& header_normal_count(read[0]) == normal.len()
            &&& header_translate_count(read[0]) == translate.len()
            &&& read.subrange(1, 1 + normal.len() as int) == normal
            &&& read.subrange(
                1 + normal.len() as int,
                1 + normal.len() as int + translate.len() as int,
            ) == translate
            &&& forall|i: int|
                1 + normal.len() + translate.len() <= i < 64 ==> read[i] == buffer[i]
        }),
{
    let read = staged(buffer, command_words(command_id, normal, translate));
    lemma_header_fields(command_id, normal.len() as u32, translate.len() as u32);
    assert(read.subrange(1, 1 + normal.len() as int) =~= normal);
    assert(read.subrange(
        1 + normal.len() as int,
        1 + normal.len() as int + translate.len() as int,
    ) =~= translate);
}

/// True when `r` is what a send returns after the kernel answered with `code`
/// and left `reply` in the command buffer: for code zero a parser at the
/// start of the reply, for any other code that code as a kernel failure.
pub open spec fn answered(r: CtrResult<ThreadCommandParser>, code: u32, reply: Seq<u32>) -> bool {
    match r {
        Ok(parser) => code == 0 && parser.words() == reply && parser.cursor() == 1,
        Err(e) => code != 0 && e == CtrError::Kernel(code),
    }
}

/// The raw identifiers of `handles`, in order.
pub open spec fn raw_handles(handles: Seq<&Handle>) -> Seq<u32> {
    Seq::new(handles.len(), |i: int| handles[i]@)
}

/// A request under construction.
///
/// Normal parameters are plain data. Translate parameters are descriptors that
/// the kernel acts on while it carries the command over: capabilities to
/// duplicate, the sender's process id, buffers to copy or map. Whatever the
/// order of the pushes, the finished command holds the normal parameters
/// first.
pub struct ThreadCommandBuilder {
    command_id: u16,
    normal: [u32; 63],
    normal_count: usize,
    translate: [u32; 63],
    translate_count: usize,
}

impl ThreadCommandBuilder {
    #[verifier::type_invariant]
    spec fn fits_the_buffer(&self) -> bool {
        self.normal_count + self.translate_count <= 63
    }

    pub closed spec fn command_id(&self) -> u16 {
        self.command_id
    }

    pub closed spec fn normal_params(&self) -> Seq<u32> {
        self.normal@.subrange(0, self.normal_count as int)
    }

    pub closed spec fn translate_params(&self) -> Seq<u32> {
        self.translate@.subrange(0, self.translate_count as int)
    }

    /// The header word as it stands after the pushes so far.
    pub open spec fn header(&self) -> u32 {
        command_header(
            self.command_id(),
            self.normal_params().len() as u32,
            self.translate_params().len() as u32,
        )
    }

    /// Number of words that can still be pushed.
    pub open spec fn room(&self) -> int {
        63 - self.normal_params().len() - self.translate_params().len()
    }

    /// Starts the command `command_id`, with no parameters yet.
    pub fn new(command_id: u16) -> (builder: ThreadCommandBuilder)
        ensures
            builder.command_id() == command_id,
            builder.normal_params() == Seq::<u32>::empty(),
            builder.translate_params() == Seq::<u32>::empty(),
    {
        let builder = ThreadCommandBuilder {
            command_id,
            normal: [0u32; 63],
            normal_count: 0,
            translate: [0u32; 63],
            translate_count: 0,
        };
        assert(builder.normal_params() =~= Seq::<u32>::empty());
        assert(builder.translate_params() =~= Seq::<u32>::empty());
        builder
    }

    /// Appends one word of plain data.
    pub fn push(&mut self, param: u32)
        requires
            old(self).room() >= 1,
        ensures
            final(self).command_id() == old(self).command_id(),
            final(self).normal_params() == old(self).normal_params().push(param),
            final(self).translate_params() == old(self).translate_params(),
    {
        proof {
            use_type_invariant(&*self);
        }
        let at: usize = self.normal_count;
        self.normal[at] = param;
        self.normal_count = at + 1;
        assert(self.normal_params() =~= old(self).normal_params().push(param));
    }

    fn push_translate(&mut self, word: u32)
        requires
            old(self).room() >= 1,
        ensures
            final(self).command_id() == old(self).command_id(),
            final(self).normal_params() == old(self).normal_params(),
            final(self).translate_params() == old(self).translate_params().push(word),
    {
        proof {
            use_type_invariant(&*self);
        }
        let at: usize = self.translate_count;
        self.translate[at] = word;
        self.translate_count = at + 1;
        assert(self.translate_params() =~= old(self).translate_params().push(word));
    }

    fn push_translate_pair(&mut self, first: u32, second: u32)
        requires
            old(self).room() >= 2,
        ensures
            final(self).command_id() == old(self).command_id(),
            final(self).normal_params() == old(self).normal_params(),
            final(self).translate_params() == old(self).translate_params() + seq![first, second],
    {
        self.push_translate(first);
        self.push_translate(second);
        assert(self.translate_params() =~= old(self).translate_params() + seq![first, second]);
    }

    /// Reserves the two words in which the kernel hands the receiver the
    /// sender's process id.
    pub fn push_current_process_id(&mut self)
        requires
            old(self).room() >= 2,
        ensures
            final(self).command_id() == old(self).command_id(),
            final(self).normal_params() == old(self).normal_params(),
            final(self).translate_params() == old(self).translate_params() + seq![0x20u32, 0u32],
    {
        self.push_translate_pair(CURRENT_PROCESS_ID_DESCRIPTOR, 0);
    }

    /// Adds capabilities that the kernel duplicates into the receiver's handle
    /// table. The sender keeps its own.
    ///
    /// Fails, and leaves the command as it was, when `handles` is empty or the
    /// descriptor and the identifiers do not fit in the room that is left.
    pub fn push_shared_handles(&mut self, handles: &[&Handle]) -> (r: CtrResult)
        ensures
            final(self).command_id() == old(self).command_id(),
            final(self).normal_params() == old(self).normal_params(),
            r is Ok <==> (1 <= handles@.len() && handles@.len() + 1 <= old(self).room()),
            r is Ok ==> final(self).translate_params() == old(self).translate_params()
                + seq![shared_handles_header(handles@.len() as u32)] + raw_handles(handles@),
            r is Err ==> r == Err::<(), CtrError>(CtrError::InvalidSize)
                && final(self).translate_params() == old(self).translate_params(),
    {
        proof {
            use_type_invariant(&*self);
        }
        let count: usize = handles.len();
        let room: usize = 63 - self.normal_count - self.translate_count;
        if count == 0 || room == 0 || count > room - 1 {
            return Err(CtrError::InvalidSize);
        }
        self.push_translate(make_shared_handles_header(count as u32));
        let mut i: usize = 0;
        while i < count
            invariant
                i <= count,
                count == handles@.len(),
                self.command_id() == old(self).command_id(),
                self.normal_params() == old(self).normal_params(),
                self.room() == old(self).room() - 1 - i,
                count + 1 <= old(self).room(),
                self.translate_params() == old(self).translate_params() + seq![
                    shared_handles_header(count as u32),
                ] + raw_handles(handles@).subrange(0, i as int),
            decreases count - i,
        {
            let raw: u32 = handles[i].get_raw();
            self.push_translate(raw);
            assert(raw_handles(handles@).subrange(0, i + 1) =~= raw_handles(handles@).subrange(
                0,
                i as int,
            ).push(raw));
            assert(self.translate_params() =~= old(self).translate_params() + seq![
                shared_handles_header(count as u32),
            ] + raw_handles(handles@).subrange(0, i + 1));
            i += 1;
        }
        assert(raw_handles(handles@).subrange(0, count as int) =~= raw_handles(handles@));
        Ok(())
    }

    /// Adds a static buffer: `size` bytes at `address`, which the kernel copies
    /// into the receiver's static-buffer slot `buffer_id`.
    pub fn push_static_buffer(&mut self, size: u32, buffer_id: u16, address: u32)
        requires
            old(self).room() >= 2,
        ensures
            final(self).command_id() == old(self).command_id(),
            final(self).normal_params() == old(self).normal_params(),
            final(self).translate_params() == old(self).translate_params() + seq![
                static_buffer_header(size, buffer_id),
                address,
            ],
    {
        self.push_translate_pair(make_static_buffer_header(size, buffer_id), address);
    }

    /// Adds a buffer of `size` bytes at `address` that the receiver may only
    /// read.
    pub fn push_read_buffer(&mut self, size: u32, address: u32)
        requires
            old(self).room() >= 2,
        ensures
            final(self).command_id() == old(self).command_id(),
            final(self).normal_params() == old(self).normal_params(),
            final(self).translate_params() == old(self).translate_params() + seq![
                buffer_header(size, 0x2),
                address,
            ],
    {
        self.push_translate_pair(make_buffer_header(size, BUFFER_RIGHT_READ), address);
    }

    /// Adds a buffer of `size` bytes at `address` that the receiver may only
    /// write.
    pub fn push_write_buffer(&mut self, size: u32, address: u32)
        requires
            old(self).room() >= 2,
        ensures
            final(self).command_id() == old(self).command_id(),
            final(self).normal_params() == old(self).normal_params(),
            final(self).translate_params() == old(self).translate_params() + seq![
                buffer_header(size, 0x4),
                address,
            ],
    {
        self.push_translate_pair(make_buffer_header(size, BUFFER_RIGHT_WRITE), address);
    }

    /// Finishes the command: the header with the final counts, then the
    /// parameters.
    pub fn build(self) -> (command: ThreadCommand)
        ensures
            command@ == command_words(
                self.command_id(),
                self.normal_params(),
                self.translate_params(),
            ),
            command@[0] == self.header(),
    {
        proof {
            use_type_invariant(&self);
        }
        let normal_count: usize = self.normal_count;
        let translate_count: usize = self.translate_count;
        let mut words: Vec<u32> = Vec::new();
        words.push(make_header(self.command_id, normal_count as u32, translate_count as u32));
        let ghost header: Seq<u32> = words@;
        let mut i: usize = 0;
        while i < normal_count
            invariant
                i <= normal_count <= 63,
                normal_count == self.normal_count,
                words@ == header + self.normal@.subrange(0, i as int),
            decreases normal_count - i,
        {
            words.push(self.normal[i]);
            assert(words@ =~= header + self.normal@.subrange(0, i + 1));
            i += 1;
        }
        let mut j: usize = 0;
        while j < translate_count
            invariant
                j <= translate_count <= 63,
                translate_count == self.translate_count,
                words@ == header + self.normal_params() + self.translate@.subrange(0, j as int),
            decreases translate_count - j,
        {
            words.push(self.translate[j]);
            assert(words@ =~= header + self.normal_params() + self.translate@.subrange(0, j + 1));
            j += 1;
        }
        ThreadCommand { words }
    }
}

/// A finished request, ready to be sent once.
pub struct ThreadCommand {
    words: Vec<u32>,
}

impl View for ThreadCommand {
    type V = Seq<u32>;

    closed spec fn view(&self) -> Seq<u32> {
        self.words@
    }
}

impl ThreadCommand {
    #[verifier::type_invariant]
    spec fn fits_the_buffer(&self) -> bool {
        1 <= self.words@.len() <= 64
    }

    /// Writes the command over the start of the thread's command buffer. The
    /// words behind it, and the static-buffer slots, stay as they are.
    pub fn stage(&self, tls: &mut ThreadLocalStorage)
        ensures
            final(tls).command_buffer@ == staged(old(tls).command_buffer@, self@),
            final(tls).static_buffers == old(tls).static_buffers,
    {
        proof {
            use_type_invariant(self);
        }
        let count: usize = self.words.len();
        let mut i: usize = 0;
        while i < count
            invariant
                i <= count <= 64,
                count == self.words@.len(),
                tls.static_buffers == old(tls).static_buffers,
                forall|k: int| 0 <= k < i ==> tls.command_buffer@[k] == self.words@[k],
                forall|k: int| i <= k < 64 ==> tls.command_buffer@[k] == old(tls).command_buffer@[k],
            decreases count - i,
        {
            tls.command_buffer[i] = self.words[i];
            i += 1;
        }
        assert(tls.command_buffer@ =~= staged(old(tls).command_buffer@, self@));
    }

    /// Sends the command over the capability `raw_handle` and blocks until the
    /// reply has arrived or the kernel gives up. `outgoing` and `incoming` are
    /// the memory that the command's buffer descriptors, or the thread's
    /// static-buffer slots, refer to.
    ///
    /// Exactly one request reaches the kernel: the command, staged as
    /// [`ThreadCommand::stage`] lays it out, with the slots and the memory as
    /// the caller left them. The static-buffer slots of the thread are the
    /// same after the call as before it, whatever happened in between. The
    /// call succeeds exactly when the kernel's result code is zero; the
    /// parser then reads the reply that the call left in the command buffer.
    /// Otherwise the error is that code.
    pub fn send_sync_request_with_buffers<P: Platform>(
        self,
        kernel: &mut Kernel<P>,
        tls: &mut ThreadLocalStorage,
        raw_handle: u32,
        outgoing: &[u8],
        incoming: &mut [u8],
    ) -> (r: CtrResult<ThreadCommandParser>)
        ensures
            final(tls).static_buffers == old(tls).static_buffers,
            final(incoming)@.len() == old(incoming)@.len(),
            sent(
                *old(kernel),
                *final(kernel),
                raw_handle,
                staged(old(tls).command_buffer@, self@),
                old(tls).static_buffers@,
                outgoing@,
                final(tls).command_buffer@,
                final(incoming)@,
            ),
            answered(r, final(kernel).last_code(), final(tls).command_buffer@),
    {
        let saved: [u32; 2] = tls.static_buffers;
        self.stage(tls);
        let code: u32 = kernel.send_sync_request(raw_handle, tls, outgoing, incoming);
        tls.static_buffers = saved;
        match check_kernel_code(code) {
            Ok(()) => Ok(ThreadCommandParser::new(tls)),
            Err(e) => Err(e),
        }
    }

    /// Sends a command that refers to no memory over the capability
    /// `raw_handle`. See [`ThreadCommand::send_sync_request_with_buffers`].
    pub fn send_sync_request_with_raw_handle<P: Platform>(
        self,
        kernel: &mut Kernel<P>,
        tls: &mut ThreadLocalStorage,
        raw_handle: u32,
    ) -> (r: CtrResult<ThreadCommandParser>)
        ensures
            final(tls).static_buffers == old(tls).static_buffers,
            sent(
                *old(kernel),
                *final(kernel),
                raw_handle,
                staged(old(tls).command_buffer@, self@),
                old(tls).static_buffers@,
                Seq::<u8>::empty(),
                final(tls).command_buffer@,
                Seq::<u8>::empty(),
            ),
            answered(r, final(kernel).last_code(), final(tls).command_buffer@),
    {
        let outgoing: [u8; 0] = [];
        let mut incoming: [u8; 0] = [];
        let r = self.send_sync_request_with_buffers(
            kernel,
            tls,
            raw_handle,
            &outgoing,
            &mut incoming,
        );
        assert(outgoing@ =~= Seq::<u8>::empty());
        assert(incoming@ =~= Seq::<u8>::empty());
        r
    }

    /// Sends a command that refers to no memory over the session that
    /// `session_handle` owns. See
    /// [`ThreadCommand::send_sync_request_with_buffers`].
    pub fn send_sync_request<P: Platform>(
        self,
        kernel: &mut Kernel<P>,
        tls: &mut ThreadLocalStorage,
        session_handle: &Handle,
    ) -> (r: CtrResult<ThreadCommandParser>)
        ensures
            final(tls).static_buffers == old(tls).static_buffers,
            sent(
                *old(kernel),
                *final(kernel),
                session_handle@,
                staged(old(tls).command_buffer@, self@),
                old(tls).static_buffers@,
                Seq::<u8>::empty(),
                final(tls).command_buffer@,
                Seq::<u8>::empty(),
            ),
            answered(r, final(kernel).last_code(), final(tls).command_buffer@),
    {
        self.send_sync_request_with_raw_handle(kernel, tls, session_handle.get_raw())
    }
}

} // verus!
