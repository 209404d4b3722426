//! The flat 64 KiB address space with its protected stack page.
//!
//! Every operation is described by a spec function over the memory's view, a
//! `Seq<u8>` of 65536 bytes, so that the effect of several calls in a row can
//! be reasoned about without running them.

use vstd::prelude::*;

verus! {

/// Number of addressable bytes: the whole range of a 16-bit address.
pub const MAX_MEMORY_SIZE_BYTES: usize = 65536;

/// Lowest address of the stack page.
pub const STACK_START: u16 = 0x0100;

/// Highest address of the stack page.
pub const STACK_END: u16 = 0x01FF;

/// Why a memory operation was refused.
#[allow(non_camel_case_types)]
#[derive(Debug, Clone, Copy, PartialEq, Eq, Structural)]
pub enum Error {
    READ_OUT_OF_BOUNDS,
    WRITE_OUT_OF_BOUNDS,
    PROGRAM_SIZE_TOO_LARGE,
    FILE_NOT_FOUND,
    PUSH_ON_STACK_OUT_OF_SPACE,
    PUSH_ON_STACK_INPUT_EMPTY,
    POP_OFF_STACK_EMPTY,
    POP_OFF_STACK_REQUESTED_ZERO_BYTES,
    POP_OFF_STACK_REQUESTED_TOO_MANY_BYTES,
}

/// The address space. Its view is the sequence of its 65536 bytes.
pub struct Memory {
    mem: [u8; MAX_MEMORY_SIZE_BYTES],
}

impl View for Memory {
    type V = Seq<u8>;

    closed spec fn view(&self) -> Seq<u8> {
        self.mem@
    }
}

/// `addr` lies in the stack page.
pub open spec fn in_stack_page(addr: int) -> bool {
    STACK_START as int <= addr <= STACK_END as int
}

/// An ordinary access at `addr` is allowed: the address exists, and it is not
/// in the stack page while the stack is prohibited.
pub open spec fn accessible(addr: int, prohibit_stack: bool) -> bool {
    0 <= addr < MAX_MEMORY_SIZE_BYTES as int && !(prohibit_stack && in_stack_page(addr))
}

/// Every one of the `size` addresses from `addr` upwards is accessible.
pub open spec fn range_accessible(addr: int, size: int, prohibit_stack: bool) -> bool {
    forall|a: int| addr <= a < addr + size ==> accessible(a, prohibit_stack)
}

/// What reading one byte gives.
pub open spec fn read_result(mem: Seq<u8>, addr: int, prohibit_stack: bool) -> Result<u8, Error> {
    if accessible(addr, prohibit_stack) {
        Ok(mem[addr])
    } else {
        Err(Error::READ_OUT_OF_BOUNDS)
    }
}

/// What reading `size` consecutive bytes gives: all of them or none.
pub open spec fn read_range_result(
    mem: Seq<u8>,
    addr: int,
    size: int,
    prohibit_stack: bool,
) -> Result<Seq<u8>, Error> {
    if range_accessible(addr, size, prohibit_stack) {
        Ok(mem.subrange(addr, addr + size))
    } else {
        Err(Error::READ_OUT_OF_BOUNDS)
    }
}

/// What writing one byte answers.
pub open spec fn write_result(addr: int, data: u8, prohibit_stack: bool) -> Result<u8, Error> {
    if accessible(addr, prohibit_stack) {
        Ok(data)
    } else {
        Err(Error::WRITE_OUT_OF_BOUNDS)
    }
}

/// The memory after writing one byte; a refused write changes nothing.
pub open spec fn written(mem: Seq<u8>, addr: int, data: u8, prohibit_stack: bool) -> Seq<u8> {
    if accessible(addr, prohibit_stack) {
        mem.update(addr, data)
    } else {
        mem
    }
}

/// A program of `len` bytes at `start`, with the byte that follows it, touches
/// the stack page.
pub open spec fn load_touches_stack(start: int, len: int) -> bool {
    start <= STACK_END as int && STACK_START as int <= start + len
}

/// What loading a program of `len` bytes at `start` answers. The stack guard is
/// looked at first, then the size.
pub open spec fn load_result(start: int, len: int, prohibit_stack: bool) -> Result<(), Error> {
    if prohibit_stack && load_touches_stack(start, len) {
        Err(Error::WRITE_OUT_OF_BOUNDS)
    } else if start + len + 1 > MAX_MEMORY_SIZE_BYTES as int {
        Err(Error::PROGRAM_SIZE_TOO_LARGE)
    } else {
        Ok(())
    }
}

/// The memory after a load: the program from `start` upwards, a zero byte
/// right behind it, every other byte as before. A refused load changes
/// nothing.
pub open spec fn loaded(mem: Seq<u8>, start: int, bytes: Seq<u8>, prohibit_stack: bool) -> Seq<u8> {
    if load_result(start, bytes.len() as int, prohibit_stack) is Ok {
        Seq::new(
            mem.len(),
            |a: int|
                if start <= a < start + bytes.len() {
                    bytes[a - start]
                } else if a == start + bytes.len() {
                    0u8
                } else {
                    mem[a]
                },
        )
    } else {
        mem
    }
}

/// What pushing `len` bytes at stack pointer `sp` answers. The page has
/// `sp + 1` addresses from `STACK_START + sp` downwards; a push that needs
/// more would cross its low boundary.
pub open spec fn push_result(sp: int, len: int) -> Result<(), Error> {
    if len == 0 {
        Err(Error::PUSH_ON_STACK_INPUT_EMPTY)
    } else if len > sp + 1 {
        Err(Error::PUSH_ON_STACK_OUT_OF_SPACE)
    } else {
        Ok(())
    }
}

/// The memory after a push: `bytes[0]` at `STACK_START + sp`, each further
/// byte one address lower. A refused push changes nothing.
pub open spec fn pushed(mem: Seq<u8>, sp: int, bytes: Seq<u8>) -> Seq<u8> {
    if push_result(sp, bytes.len() as int) is Ok {
        Seq::new(
            mem.len(),
            |a: int|
                if STACK_START + sp - bytes.len() < a <= STACK_START + sp {
                    bytes[STACK_START + sp - a]
                } else {
                    mem[a]
                },
        )
    } else {
        mem
    }
}

/// What popping `count` bytes at stack pointer `sp` gives: the bytes from
/// `STACK_START + sp` upwards. A pop that would read past the last address of
/// the page asks for too many bytes. A stack pointer on the last address of
/// the page is the empty position: a pop of one byte there finds nothing.
pub open spec fn pop_result(mem: Seq<u8>, sp: int, count: int) -> Result<Seq<u8>, Error> {
    if count == 0 {
        Err(Error::POP_OFF_STACK_REQUESTED_ZERO_BYTES)
    } else if STACK_START + sp + count > STACK_END + 1 {
        Err(Error::POP_OFF_STACK_REQUESTED_TOO_MANY_BYTES)
    } else if STACK_START + sp == STACK_END as int {
        Err(Error::POP_OFF_STACK_EMPTY)
    } else {
        Ok(mem.subrange(STACK_START + sp, STACK_START + sp + count))
    }
}

/// The view of a byte vector inside a `Result`.
pub open spec fn bytes_view(r: Result<Vec<u8>, Error>) -> Result<Seq<u8>, Error> {
    match r {
        Ok(v) => Ok(v@),
        Err(e) => Err(e),
    }
}

impl Memory {
    /// Every memory holds exactly 65536 bytes.
    pub proof fn lemma_len(&self)
        ensures
            self@.len() == MAX_MEMORY_SIZE_BYTES,
    {
    }

    /// A memory of zero bytes.
    pub fn new() -> (m: Memory)
        ensures
            m@ == Seq::new(MAX_MEMORY_SIZE_BYTES as nat, |a: int| 0u8),
    {
        Memory { mem: [0; MAX_MEMORY_SIZE_BYTES] }
    }

    /// Reads the byte at `addr`.
    pub fn read_byte(&self, addr: u16, prohibit_stack: bool) -> (res: Result<u8, Error>)
        ensures
            res == read_result(self@, addr as int, prohibit_stack),
    {
        if prohibit_stack && addr >= STACK_START && addr <= STACK_END {
            Err(Error::READ_OUT_OF_BOUNDS)
        } else {
            Ok(self.mem[addr as usize])
        }
    }

    /// Reads `size` bytes from `addr` upwards, or none if one of them cannot
    /// be read.
    pub fn read_n_bytes(&self, addr: u16, size: usize, prohibit_stack: bool) -> (res: Result<
        Vec<u8>,
        Error,
    >)
        ensures
            bytes_view(res) == read_range_result(self@, addr as int, size as int, prohibit_stack),
    {
        let mut output: Vec<u8> = Vec::new();
        let mut i: usize = 0;
        while i < size
            invariant
                i <= size,
                addr + i <= MAX_MEMORY_SIZE_BYTES,
                range_accessible(addr as int, i as int, prohibit_stack),
                output@ == self@.subrange(addr as int, addr + i),
            decreases size - i,
        {
            if i >= MAX_MEMORY_SIZE_BYTES - addr as usize {
                assert(!accessible(addr + i, prohibit_stack));
                return Err(Error::READ_OUT_OF_BOUNDS);
            }
            let at: u16 = (addr as usize + i) as u16;
            match self.read_byte(at, prohibit_stack) {
                Ok(byte) => {
                    output.push(byte);
                },
                Err(_) => {
                    return Err(Error::READ_OUT_OF_BOUNDS);
                },
            }
            i += 1;
        }
        Ok(output)
    }

    /// Writes `data` at `addr` and answers with the byte written.
    pub fn write_byte(&mut self, addr: u16, data: u8, prohibit_stack: bool) -> (res: Result<
        u8,
        Error,
    >)
        ensures
            res == write_result(addr as int, data, prohibit_stack),
            final(self)@ == written(old(self)@, addr as int, data, prohibit_stack),
    {
        if prohibit_stack && addr >= STACK_START && addr <= STACK_END {
            Err(Error::WRITE_OUT_OF_BOUNDS)
        } else {
            self.mem[addr as usize] = data;
            Ok(data)
        }
    }

    /// Copies a program to `start_addr` and puts a zero byte, the break
    /// opcode, right behind it.
    pub fn load_program_bytes(&mut self, start_addr: u16, bytes: &Vec<u8>, prohibit_stack: bool) -> (res:
        Result<(), Error>)
        ensures
            res == load_result(start_addr as int, bytes.len() as int, prohibit_stack),
            final(self)@ == loaded(old(self)@, start_addr as int, bytes@, prohibit_stack),
    {
        let start: usize = start_addr as usize;
        let len: usize = bytes.len();
        if prohibit_stack && start <= STACK_END as usize && (start >= STACK_START as usize || len
            >= STACK_START as usize - start) {
            Err(Error::WRITE_OUT_OF_BOUNDS)
        } else if len >= MAX_MEMORY_SIZE_BYTES - start {
            Err(Error::PROGRAM_SIZE_TOO_LARGE)
        } else {
            let mut i: usize = 0;
            while i < len
                invariant
                    i <= len,
                    len == bytes.len(),
                    start + len < MAX_MEMORY_SIZE_BYTES,
                    self@.len() == MAX_MEMORY_SIZE_BYTES,
                    forall|a: int|
                        0 <= a < MAX_MEMORY_SIZE_BYTES ==> #[trigger] self@[a] == if start <= a
                            < start + i {
                            bytes@[a - start]
                        } else {
                            old(self)@[a]
                        },
                decreases len - i,
            {
                self.mem[start + i] = bytes[i];
                i += 1;
            }
            self.mem[start + len] = 0;
            Ok(())
        }
    }

    /// Writes `bytes` into the stack page, the first at `stack_pointer`, each
    /// further one an address lower. The caller moves its stack pointer.
    pub fn push_onto_stack(&mut self, stack_pointer: u8, bytes: &Vec<u8>) -> (res: Result<
        (),
        Error,
    >)
        ensures
            res == push_result(stack_pointer as int, bytes.len() as int),
            final(self)@ == pushed(old(self)@, stack_pointer as int, bytes@),
    {
        let start_index: usize = STACK_START as usize + stack_pointer as usize;
        let len: usize = bytes.len();
        if len == 0 {
            Err(Error::PUSH_ON_STACK_INPUT_EMPTY)
        } else if len > stack_pointer as usize + 1 {
            Err(Error::PUSH_ON_STACK_OUT_OF_SPACE)
        } else {
            let mut i: usize = 0;
            while i < len
                invariant
                    i <= len,
                    len == bytes.len(),
                    len <= stack_pointer + 1,
                    start_index == STACK_START + stack_pointer,
                    self@.len() == MAX_MEMORY_SIZE_BYTES,
                    forall|a: int|
                        0 <= a < MAX_MEMORY_SIZE_BYTES ==> #[trigger] self@[a] == if start_index
                            - i < a <= start_index {
                            bytes@[start_index - a]
                        } else {
                            old(self)@[a]
                        },
                decreases len - i,
            {
                self.mem[start_index - i] = bytes[i];
                i += 1;
            }
            Ok(())
        }
    }

    /// Reads `num_bytes` bytes of the stack page from `stack_pointer` upwards.
    /// The memory stays as it is, so the same call gives the same bytes again.
    pub fn pop_off_stack(&mut self, stack_pointer: u8, num_bytes: u8) -> (res: Result<
        Vec<u8>,
        Error,
    >)
        ensures
            bytes_view(res) == pop_result(old(self)@, stack_pointer as int, num_bytes as int),
            final(self)@ == old(self)@,
    {
        let start_index: usize = STACK_START as usize + stack_pointer as usize;
        let count: usize = num_bytes as usize;
        if count == 0 {
            Err(Error::POP_OFF_STACK_REQUESTED_ZERO_BYTES)
        } else if start_index + count > STACK_END as usize + 1 {
            Err(Error::POP_OFF_STACK_REQUESTED_TOO_MANY_BYTES)
        } else if start_index == STACK_END as usize {
            Err(Error::POP_OFF_STACK_EMPTY)
        } else {
            let mut return_vec: Vec<u8> = Vec::new();
            let mut i: usize = 0;
            while i < count
                invariant
                    i <= count,
                    start_index + count <= STACK_END + 1,
                    self@ == old(self)@,
                    return_vec@ == self@.subrange(start_index as int, start_index + i),
                decreases count - i,
            {
                return_vec.push(self.mem[start_index + i]);
                i += 1;
            }
            Ok(return_vec)
        }
    }
}

/// A byte written with the stack guard off is the byte that a read with the
/// guard off gives back, at every address.
pub proof fn lemma_write_then_read(mem: Seq<u8>, addr: u16, data: u8)
    requires
        mem.len() == MAX_MEMORY_SIZE_BYTES,
    ensures
        write_result(addr as int, data, false) == Ok::<u8, Error>(data),
        read_result(written(mem, addr as int, data, false), addr as int, false) == Ok::<u8, Error>(
            data,
        ),
{
}

/// Inside the stack page a guarded read or write is refused and leaves the
/// memory alone, while an unguarded one goes through.
pub proof fn lemma_stack_page_guard(mem: Seq<u8>, addr: u16, data: u8)
    requires
        mem.len() == MAX_MEMORY_SIZE_BYTES,
        in_stack_page(addr as int),
    ensures
        read_result(mem, addr as int, true) == Err::<u8, Error>(Error::READ_OUT_OF_BOUNDS),
        write_result(addr as int, data, true) == Err::<u8, Error>(Error::WRITE_OUT_OF_BOUNDS),
        written(mem, addr as int, data, true) == mem,
        read_result(mem, addr as int, false) == Ok::<u8, Error>(mem[addr as int]),
        write_result(addr as int, data, false) == Ok::<u8, Error>(data),
        written(mem, addr as int, data, false) == mem.update(addr as int, data),
{
}

/// Bytes pushed at `sp` come back in reverse, lowest address first, when as
/// many bytes are popped at the lowest address that the push wrote to. This
/// holds at every stack pointer and for every push that fits, but for one:
/// a single byte pushed at `0xFF` lies on the empty position, where a pop of
/// one byte finds nothing.
pub proof fn lemma_push_then_pop(mem: Seq<u8>, sp: u8, bytes: Seq<u8>)
    requires
        mem.len() == MAX_MEMORY_SIZE_BYTES,
        1 <= bytes.len() <= sp + 1,
        !(sp == 0xFF && bytes.len() == 1),
    ensures
        push_result(sp as int, bytes.len() as int) == Ok::<(), Error>(()),
        pop_result(pushed(mem, sp as int, bytes), sp - bytes.len() + 1, bytes.len() as int) == Ok::<
            Seq<u8>,
            Error,
        >(bytes.reverse()),
{
    let after = pushed(mem, sp as int, bytes);
    let low = STACK_START + sp - bytes.len() + 1;
    assert(after.subrange(low, low + bytes.len()) =~= bytes.reverse());
}

} // verus!
