//! The resolved signature forms that catalog entries are converted into:
//! how an instruction is assembled, how it is encoded at runtime, and what
//! it reads.

use vstd::prelude::*;

verus! {

/// An argument position of an assembled instruction.
#[derive(Clone, Copy, Debug, PartialEq, Eq, Structural)]
pub enum SigArgumentType {
    Rd,
    Rs,
    Rt,
    Shamt,
    I16,
    U16,
    J,
    OffRs,
    OffRt,
    F32,
    F64,
    I32,
    U32,
    Off32Rs,
    Off32Rt,
}

/// Which registers an instruction reads.
#[derive(Clone, Copy, Debug, PartialEq, Eq, Structural)]
pub enum SigReadsRegisterType {
    Rs,
    Rt,
    OffRs,
    OffRt,
}

/// How an instruction is written in assembly.
#[derive(Clone, Debug, PartialEq)]
pub struct CompileSignature {
    pub format: Vec<SigArgumentType>,
    pub relative_label: bool,
}

impl CompileSignature {
    pub fn new(format: Vec<SigArgumentType>, relative_label: bool) -> (r: Self)
        ensures
            r.format == format,
            r.relative_label == relative_label,
    {
        CompileSignature { format, relative_label }
    }
}

/// How an instruction is encoded, by format.
#[derive(Clone, Copy, Debug, PartialEq, Eq, Structural)]
pub enum RuntimeSignature {
    R {
        opcode: u8,
        funct: u8,
        shamt: Option<u8>,
        rs: Option<u8>,
        rt: Option<u8>,
        rd: Option<u8>,
    },
    I { opcode: u8, rt: Option<u8> },
    J { opcode: u8 },
}

/// Which registers an instruction reads at runtime.
#[derive(Clone, Debug, PartialEq)]
pub struct RuntimeMetadata {
    pub reads: Vec<SigReadsRegisterType>,
}

impl RuntimeMetadata {
    pub fn new(reads: Vec<SigReadsRegisterType>) -> (r: Self)
        ensures
            r.reads == reads,
    {
        RuntimeMetadata { reads }
    }
}

/// The descriptions attached to an instruction.
#[derive(Clone, Debug, PartialEq)]
pub struct InstMetadata {
    pub desc_short: Option<String>,
    pub desc_long: Option<String>,
}

impl InstMetadata {
    pub fn new(desc_short: Option<String>, desc_long: Option<String>) -> (r: Self)
        ensures
            r.desc_short == desc_short,
            r.desc_long == desc_long,
    {
        InstMetadata { desc_short, desc_long }
    }
}

/// A native instruction's full signature.
#[derive(Clone, Debug, PartialEq)]
pub struct InstSignature {
    pub name: String,
    pub compile: CompileSignature,
    pub runtime: RuntimeSignature,
    pub runtime_metadata: RuntimeMetadata,
    pub metadata: InstMetadata,
}

impl InstSignature {
    pub fn new(
        name: String,
        compile: CompileSignature,
        runtime: RuntimeSignature,
        runtime_metadata: RuntimeMetadata,
        metadata: InstMetadata,
    ) -> (r: Self)
        ensures
            r.name == name,
            r.compile == compile,
            r.runtime == runtime,
            r.runtime_metadata == runtime_metadata,
            r.metadata == metadata,
    {
        InstSignature { name, compile, runtime, runtime_metadata, metadata }
    }
}

/// One line of a pseudo-instruction's expansion.
#[derive(Clone, Debug, PartialEq)]
pub struct PseudoExpand {
    pub inst: String,
    pub data: Vec<String>,
}

impl PseudoExpand {
    pub fn new(inst: String, data: Vec<String>) -> (r: Self)
        ensures
            r.inst == inst,
            r.data == data,
    {
        PseudoExpand { inst, data }
    }
}

/// A pseudo-instruction's full signature.
#[derive(Clone, Debug, PartialEq)]
pub struct PseudoSignature {
    pub name: String,
    pub compile: CompileSignature,
    pub expand: Vec<PseudoExpand>,
}

impl PseudoSignature {
    pub fn new(name: String, compile: CompileSignature, expand: Vec<PseudoExpand>) -> (r: Self)
        ensures
            r.name == name,
            r.compile == compile,
            r.expand == expand,
    {
        PseudoSignature { name, compile, expand }
    }
}

} // verus!
