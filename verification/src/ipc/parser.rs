//! Reading a reply, or an inbound request, word by word.
use crate::ipc::layout::{
    header_command_id, header_normal_count, header_translate_count, ThreadLocalStorage,
};
use crate::res::{CtrError, CtrResult};
use vstd::prelude::*;

verus! {

/// What the generic result word `word` of a reply means: zero is success, any
/// other value is the failure it encodes.
pub open spec fn result_of(word: u32) -> CtrResult {
    if word == 0 {
        Ok(())
    } else {
        Err(CtrError::Service(word))
    }
}

/// A cursor over the 64 words of a command buffer. Word 0 is the header; the
/// cursor starts at word 1 and only moves forward.
pub struct ThreadCommandParser {
    words: [u32; 64],
    cursor: usize,
}

impl ThreadCommandParser {
    #[verifier::type_invariant]
    spec fn cursor_in_buffer(&self) -> bool {
        1 <= self.cursor <= 64
    }

    /// The words being read.
    pub closed spec fn words(&self) -> Seq<u32> {
        self.words@
    }

    /// Index of the next word that `pop` returns.
    pub closed spec fn cursor(&self) -> int {
        self.cursor as int
    }

    /// A parser over what the thread's command buffer holds now.
    pub fn new(tls: &ThreadLocalStorage) -> (parser: ThreadCommandParser)
        ensures
            parser.words() == tls.command_buffer@,
            parser.cursor() == 1,
    {
        ThreadCommandParser { words: tls.command_buffer, cursor: 1 }
    }

    /// The command id in the header.
    pub fn command_id(&self) -> (id: u16)
        ensures
            id == header_command_id(self.words()[0]),
    {
        (self.words[0] >> 16) as u16
    }

    /// The number of normal parameter words that the header declares.
    pub fn normal_count(&self) -> (count: u32)
        ensures
            count == header_normal_count(self.words()[0]),
    {
        (self.words[0] >> 6) & 0x3f
    }

    /// The number of translate parameter words that the header declares.
    pub fn translate_count(&self) -> (count: u32)
        ensures
            count == header_translate_count(self.words()[0]),
    {
        self.words[0] & 0x3f
    }

    /// Reads the generic result word of a reply. It is the first word after the
    /// header, so this is the first read on a reply.
    pub fn pop_result(&mut self) -> (r: CtrResult)
        requires
            old(self).cursor() == 1,
        ensures
            final(self).words() == old(self).words(),
            final(self).cursor() == 2,
            r == result_of(old(self).words()[1]),
    {
        let word: u32 = self.words[1];
        self.cursor = 2;
        if word == 0 {
            Ok(())
        } else {
            Err(CtrError::Service(word))
        }
    }

    /// Reads the next word.
    pub fn pop(&mut self) -> (word: u32)
        requires
            old(self).cursor() < 64,
        ensures
            final(self).words() == old(self).words(),
            final(self).cursor() == old(self).cursor() + 1,
            word == old(self).words()[old(self).cursor()],
    {
        proof {
            use_type_invariant(&*self);
        }
        let word: u32 = self.words[self.cursor];
        self.cursor = self.cursor + 1;
        word
    }
}

} // verus!
