//! File names as the driver takes them: UTF-8 bytes followed by a NUL.

use vstd::prelude::*;
use vstd::string::*;
use vstd::utf8::*;
use arrayvec::ArrayString;
use crate::fixed::{
    name_buffer_as_str, name_buffer_bytes, name_buffer_new, name_buffer_try_push,
    name_buffer_try_push_str,
};

verus! {

/// The longest file name, in bytes, that the card's directory can hold.
pub const CARD_FILENAME_MAX: usize = 32;

/// A file name that fits the card's directory, stored with its terminator.
#[derive(Clone, Copy, Debug, PartialEq, Eq)]
pub struct FileName {
    buf: ArrayString<64>,
}

/// The single byte that ends a name.
pub open spec fn terminator() -> Seq<u8> {
    seq![0u8]
}

/// The UTF-8 encoding of the NUL character is the byte zero.
pub proof fn nul_encodes_as_terminator()
    ensures
        encode_utf8(seq!['\0']) == terminator(),
{
    let c: u32 = '\0' as u32;
    assert(leading_byte_width_1(0u32) == 0u8) by (bit_vector);
    assert(seq!['\0'].drop_first() =~= Seq::<char>::empty());
    assert(encode_utf8(seq!['\0']) =~= encode_scalar(c) + encode_utf8(Seq::<char>::empty()));
    assert(encode_utf8(seq!['\0']) =~= seq![0u8]);
}

impl FileName {
    /// The bytes handed to the driver: the name and its terminator.
    pub closed spec fn terminated(&self) -> Seq<u8> {
        name_buffer_bytes(self.buf)
    }

    /// The bytes of the name itself.
    pub open spec fn name(&self) -> Seq<u8> {
        self.terminated().drop_last()
    }

    /// A stored name is at most `CARD_FILENAME_MAX` bytes long and ends in
    /// the terminator.
    #[verifier::type_invariant]
    pub open spec fn wf(&self) -> bool {
        &&& self.terminated().len() >= 1
        &&& self.terminated().last() == 0u8
        &&& self.name().len() <= CARD_FILENAME_MAX
    }

    /// Stores `file_name` with its terminator, or returns `None` when the
    /// name is longer than `CARD_FILENAME_MAX` bytes.
    pub fn new(file_name: &str) -> (stored: Option<FileName>)
        ensures
            stored is Some <==> file_name.spec_bytes().len() <= CARD_FILENAME_MAX,
            stored matches Some(name) ==> {
                &&& name.wf()
                &&& name.name() == file_name.spec_bytes()
                &&& name.terminated() == file_name.spec_bytes() + terminator()
            },
    {
        if file_name.len() > CARD_FILENAME_MAX {
            return None;
        }
        let mut buf = name_buffer_new();
        let pushed = name_buffer_try_push_str(&mut buf, file_name);
        proof {
            nul_encodes_as_terminator();
        }
        match pushed {
            Ok(()) => {},
            Err(_) => {
                return None;
            },
        }
        match name_buffer_try_push(&mut buf, '\0') {
            Ok(()) => {
                let name = FileName { buf };
                proof {
                    assert(name.terminated() =~= file_name.spec_bytes() + terminator());
                    assert(name.name() =~= file_name.spec_bytes());
                }
                Some(name)
            },
            Err(_) => None,
        }
    }

    /// The name and its terminator, as the driver reads them.
    pub fn as_bytes(&self) -> (bytes: &[u8])
        ensures
            bytes@ == self.terminated(),
            self.wf(),
    {
        proof {
            use_type_invariant(self);
        }
        name_buffer_as_str(&self.buf).as_bytes()
    }
}

} // verus!
