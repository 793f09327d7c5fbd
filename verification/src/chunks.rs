//! The binary instruction set, its encode/decode protocol, and the
//! append-only chunk container that holds compiled output.

use vstd::prelude::*;

use crate::runtime::LoxValue;

verus! {

/// One operation of the instruction set. `Constant` carries the single-byte
/// index of an entry in a chunk's constant pool; every other variant takes
/// no operand and works on the operand stack.
#[derive(Clone, Copy, Debug, PartialEq, Eq, Structural)]
pub enum Instruction {
    Return,
    Constant(u8),
    Negate,
    Add,
    Subtract,
    Multiply,
    Divide,
}

impl Instruction {
    /// The tag byte that identifies this variant on the wire.
    pub open spec fn opcode_spec(self) -> u8 {
        match self {
            Instruction::Return => 0,
            Instruction::Constant(_) => 1,
            Instruction::Negate => 2,
            Instruction::Add => 3,
            Instruction::Subtract => 4,
            Instruction::Multiply => 5,
            Instruction::Divide => 6,
        }
    }

    /// The wire form of this instruction: the tag byte followed by each
    /// operand byte, in declaration order.
    pub open spec fn encoding_spec(self) -> Seq<u8> {
        match self {
            Instruction::Constant(index) => seq![1u8, index],
            _ => seq![self.opcode_spec()],
        }
    }

    /// Encodes this instruction as its wire form.
    pub fn as_bytecode(&self) -> (bytecode: Vec<u8>)
        ensures
            bytecode@ == self.encoding_spec(),
    {
        let opcode = self.get_opcode();
        let mut bytecode: Vec<u8> = Vec::new();
        bytecode.push(opcode);

        match *self {
            Instruction::Constant(index) => bytecode.push(index),
            _ => {}
        }

        proof {
            assert(bytecode@ =~= self.encoding_spec());
        }
        bytecode
    }

    fn get_opcode(&self) -> (opcode: u8)
        ensures
            opcode == self.opcode_spec(),
    {
        match self {
            Instruction::Return => 0,
            Instruction::Constant(_) => 1,
            Instruction::Negate => 2,
            Instruction::Add => 3,
            Instruction::Subtract => 4,
            Instruction::Multiply => 5,
            Instruction::Divide => 6,
        }
    }

    /// Decodes at most one instruction from `bytes` starting at `offset`,
    /// returning how many bytes were consumed together with the decoded
    /// instruction, if any. An exhausted stream consumes nothing; a
    /// truncated operand consumes only what was present; an unrecognized
    /// tag byte consumes exactly the tag.
    pub fn from_bytecode(bytes: &Vec<u8>, offset: usize) -> (r: (usize, Option<Instruction>))
        ensures
            (r.0 as int, r.1) == decode_spec(bytes@, offset as int),
            offset + r.0 <= bytes@.len() || r == (0usize, Option::<Instruction>::None),
    {
        if offset >= bytes.len() {
            return (0, None);
        }

        let opcode = bytes[offset];
        match opcode {
            0 => (1, Some(Instruction::Return)),
            1 => {
                if offset + 1 < bytes.len() {
                    (2, Some(Instruction::Constant(bytes[offset + 1])))
                } else {
                    (1, None)
                }
            }
            2 => (1, Some(Instruction::Negate)),
            3 => (1, Some(Instruction::Add)),
            4 => (1, Some(Instruction::Subtract)),
            5 => (1, Some(Instruction::Multiply)),
            6 => (1, Some(Instruction::Divide)),
            _ => (1, None),
        }
    }
}

/// What one decode step yields on `bytes` at `offset`: the number of bytes
/// consumed, and the instruction if one was recognized whole.
pub open spec fn decode_spec(bytes: Seq<u8>, offset: int) -> (int, Option<Instruction>) {
    if offset < 0 || offset >= bytes.len() {
        (0int, None)
    } else {
        let tag = bytes[offset];
        if tag == 0 {
            (1int, Some(Instruction::Return))
        } else if tag == 1 {
            if offset + 1 < bytes.len() {
                (2int, Some(Instruction::Constant(bytes[offset + 1])))
            } else {
                (1int, None)
            }
        } else if tag == 2 {
            (1int, Some(Instruction::Negate))
        } else if tag == 3 {
            (1int, Some(Instruction::Add))
        } else if tag == 4 {
            (1int, Some(Instruction::Subtract))
        } else if tag == 5 {
            (1int, Some(Instruction::Multiply))
        } else if tag == 6 {
            (1int, Some(Instruction::Divide))
        } else {
            (1int, None)
        }
    }
}

/// Round trip: decoding an instruction's wire form from its start yields
/// the instruction back and consumes exactly the whole encoding.
pub proof fn lemma_encode_decode_round_trip(instruction: Instruction)
    ensures
        decode_spec(instruction.encoding_spec(), 0)
            == (instruction.encoding_spec().len() as int, Some(instruction)),
{
}

/// The abstract value of a chunk: its diagnostic name, the encoded
/// instruction stream, the source line recorded for each code byte, and
/// the constant pool.
pub ghost struct ChunkView {
    pub name: Seq<char>,
    pub lines: Seq<usize>,
    pub code: Seq<u8>,
    pub constants: Seq<LoxValue>,
}

/// An append-only container of compiled output: code bytes, a parallel
/// per-byte line table, and a constant pool of at most 256 values.
pub struct Chunk {
    name: String,
    lines: Vec<usize>,
    code: Vec<u8>,
    constants: Vec<LoxValue>,
}

impl View for Chunk {
    type V = ChunkView;

    closed spec fn view(&self) -> ChunkView {
        ChunkView {
            name: self.name@,
            lines: self.lines@,
            code: self.code@,
            constants: self.constants@,
        }
    }
}

impl Chunk {
    /// The chunk invariant: every code byte carries exactly one line
    /// entry, and the constant pool stays addressable by a single byte.
    /// Every constructor establishes it and every mutation preserves it,
    /// so it holds after any sequence of calls.
    pub open spec fn wf(self) -> bool {
        &&& self@.lines.len() == self@.code.len()
        &&& self@.constants.len() <= 256
    }

    /// Builds an empty chunk with the given diagnostic name.
    pub fn create(name: &str) -> (chunk: Chunk)
        ensures
            chunk.wf(),
            chunk@.name == name@,
            chunk@.lines == Seq::<usize>::empty(),
            chunk@.code == Seq::<u8>::empty(),
            chunk@.constants == Seq::<LoxValue>::empty(),
    {
        Chunk {
            name: name.to_owned(),
            lines: Vec::new(),
            code: Vec::new(),
            constants: Vec::new(),
        }
    }

    /// Appends one code byte together with the source line of the
    /// instruction it belongs to. Callers append one byte at a time, so a
    /// multi-byte instruction takes one call per byte.
    pub fn write(&mut self, line: usize, byte: u8)
        requires
            old(self).wf(),
        ensures
            final(self).wf(),
            final(self)@.name == old(self)@.name,
            final(self)@.lines == old(self)@.lines.push(line),
            final(self)@.code == old(self)@.code.push(byte),
            final(self)@.constants == old(self)@.constants,
    {
        self.lines.push(line);
        self.code.push(byte);
    }

    /// Appends a value to the constant pool and returns its index, or
    /// `None` when the pool already holds its full 256 entries.
    pub fn add_constant(&mut self, constant: LoxValue) -> (index: Option<u8>)
        requires
            old(self).wf(),
        ensures
            final(self).wf(),
            old(self)@.constants.len() < 256 ==> {
                &&& index == Some(old(self)@.constants.len() as u8)
                &&& final(self)@.constants == old(self)@.constants.push(constant)
            },
            old(self)@.constants.len() >= 256 ==> {
                &&& index is None
                &&& final(self)@.constants == old(self)@.constants
            },
            final(self)@.name == old(self)@.name,
            final(self)@.lines == old(self)@.lines,
            final(self)@.code == old(self)@.code,
    {
        if self.constants.len() >= 256 {
            return None;
        }

        self.constants.push(constant);
        Some((self.constants.len() - 1) as u8)
    }

    /// The diagnostic name the chunk was created with.
    pub fn name(&self) -> (name: &String)
        ensures
            name@ == self@.name,
    {
        &self.name
    }

    /// Read-only access to the encoded instruction stream.
    pub fn code(&self) -> (code: &Vec<u8>)
        ensures
            code@ == self@.code,
    {
        &self.code
    }

    /// The source line recorded for the code byte at `offset`.
    pub fn line(&self, offset: usize) -> (line: usize)
        requires
            offset < self@.lines.len(),
        ensures
            line == self@.lines[offset as int],
    {
        self.lines[offset]
    }

    /// Read-only access to the constant at `index`; the index must be in
    /// range, which the virtual machine checks before calling.
    pub fn constant(&self, index: u8) -> (constant: &LoxValue)
        requires
            (index as int) < self@.constants.len(),
        ensures
            *constant == self@.constants[index as int],
    {
        &self.constants[index as usize]
    }

    /// Read-only access to the constant pool.
    pub fn constants(&self) -> (constants: &Vec<LoxValue>)
        ensures
            constants@ == self@.constants,
    {
        &self.constants
    }
}

} // verus!
