//! The instruction catalog's entry shapes, as they come out of the
//! catalog file, and their conversion into resolved signatures.

use vstd::prelude::*;
use crate::signature::{InstSignature, CompileSignature, RuntimeSignature, RuntimeMetadata,
    InstMetadata, PseudoSignature, PseudoExpand, SigArgumentType, SigReadsRegisterType};

verus! {

/// A native instruction as described by the catalog.
#[derive(Clone, Debug, PartialEq)]
pub struct InstructionYaml {
    pub name: String,
    pub desc_short: Option<String>,
    pub desc_long: Option<String>,
    pub compile: CompileYaml,
    pub runtime: RuntimeYaml,
}

/// The assembly shape of a catalog entry.
#[derive(Clone, Debug, PartialEq)]
pub struct CompileYaml {
    pub format: Vec<ArgumentType>,
    pub relative_label: bool,
}

/// The encoding of a catalog entry.
#[derive(Clone, Debug, PartialEq)]
pub struct RuntimeYaml {
    pub inst_type: InstructionType,
    pub opcode: Option<u8>,
    pub funct: Option<u8>,
    pub shamt: Option<u8>,
    pub rs: Option<u8>,
    pub rt: Option<u8>,
    pub rd: Option<u8>,
    pub reads: Vec<ReadsRegisterType>,
}

/// The three encoding formats.
#[derive(Clone, Copy, Debug, PartialEq, Eq, Structural)]
pub enum InstructionType {
    R,
    I,
    J,
}

/// A pseudo-instruction as described by the catalog.
#[derive(Clone, Debug, PartialEq)]
pub struct PseudoInstructionYaml {
    pub name: String,
    pub desc_short: Option<String>,
    pub desc_long: Option<String>,
    pub compile: CompileYaml,
    pub expand: Vec<InstructionExpansionYaml>,
}

/// One expansion line of a pseudo-instruction.
#[derive(Clone, Debug, PartialEq)]
pub struct InstructionExpansionYaml {
    pub inst: String,
    pub data: Vec<String>,
}

/// An argument position as named by the catalog; `Rx` is a placeholder
/// that only pseudo-instruction expansion may use.
#[derive(Clone, Copy, Debug, PartialEq, Eq, Structural)]
pub enum ArgumentType {
    Rd,
    Rs,
    Rt,
    Shamt,
    I16,
    U16,
    J,
    OffRs,
    OffRt,
    F32,
    F64,
    Rx,
    I32,
    U32,
    Off32Rs,
    Off32Rt,
}

/// A register read as named by the catalog.
#[derive(Clone, Copy, Debug, PartialEq, Eq, Structural)]
pub enum ReadsRegisterType {
    Rs,
    Rt,
    OffRs,
    OffRt,
}

/// The ASCII lowercase form of one character.
pub open spec fn lower_char(c: char) -> char {
    if 'A' <= c && c <= 'Z' {
        ((c as u8) + 32) as char
    } else {
        c
    }
}

/// Relies on `str::to_ascii_lowercase`: each character is mapped to its
/// ASCII lowercase equivalent, the rest are unchanged.
#[verifier::external_body]
fn to_ascii_lower(s: &String) -> (r: String)
    ensures
        r@ == s@.map_values(|c: char| lower_char(c)),
{
    s.to_ascii_lowercase()
}

/// Where an argument position converts to (the placeholder `Rx` has no
/// signature form).
pub open spec fn arg_sig_spec(a: ArgumentType) -> SigArgumentType {
    match a {
        ArgumentType::Rd => SigArgumentType::Rd,
        ArgumentType::Rs => SigArgumentType::Rs,
        ArgumentType::Rt => SigArgumentType::Rt,
        ArgumentType::Shamt => SigArgumentType::Shamt,
        ArgumentType::I16 => SigArgumentType::I16,
        ArgumentType::U16 => SigArgumentType::U16,
        ArgumentType::J => SigArgumentType::J,
        ArgumentType::OffRs => SigArgumentType::OffRs,
        ArgumentType::OffRt => SigArgumentType::OffRt,
        ArgumentType::F32 => SigArgumentType::F32,
        ArgumentType::F64 => SigArgumentType::F64,
        ArgumentType::Rx => SigArgumentType::I32,
        ArgumentType::I32 => SigArgumentType::I32,
        ArgumentType::U32 => SigArgumentType::U32,
        ArgumentType::Off32Rs => SigArgumentType::Off32Rs,
        ArgumentType::Off32Rt => SigArgumentType::Off32Rt,
    }
}

impl ArgumentType {
    /// Converts to the signature form; the placeholder `Rx` must have been
    /// macroed away before conversion.
    pub fn to_signature(self) -> (r: SigArgumentType)
        requires
            self != ArgumentType::Rx,
        ensures
            r == arg_sig_spec(self),
    {
        match self {
            ArgumentType::Rd => SigArgumentType::Rd,
            ArgumentType::Rs => SigArgumentType::Rs,
            ArgumentType::Rt => SigArgumentType::Rt,
            ArgumentType::Shamt => SigArgumentType::Shamt,
            ArgumentType::I16 => SigArgumentType::I16,
            ArgumentType::U16 => SigArgumentType::U16,
            ArgumentType::J => SigArgumentType::J,
            ArgumentType::OffRs => SigArgumentType::OffRs,
            ArgumentType::OffRt => SigArgumentType::OffRt,
            ArgumentType::F32 => SigArgumentType::F32,
            ArgumentType::F64 => SigArgumentType::F64,
            ArgumentType::Rx => SigArgumentType::I32,
            ArgumentType::I32 => SigArgumentType::I32,
            ArgumentType::U32 => SigArgumentType::U32,
            ArgumentType::Off32Rs => SigArgumentType::Off32Rs,
            ArgumentType::Off32Rt => SigArgumentType::Off32Rt,
        }
    }
}

/// Where a register read converts to.
pub open spec fn reads_sig_spec(a: ReadsRegisterType) -> SigReadsRegisterType {
    match a {
        ReadsRegisterType::Rs => SigReadsRegisterType::Rs,
        ReadsRegisterType::Rt => SigReadsRegisterType::Rt,
        ReadsRegisterType::OffRs => SigReadsRegisterType::OffRs,
        ReadsRegisterType::OffRt => SigReadsRegisterType::OffRt,
    }
}

impl ReadsRegisterType {
    /// Converts to the signature form.
    pub fn to_signature(self) -> (r: SigReadsRegisterType)
        ensures
            r == reads_sig_spec(self),
    {
        match self {
            ReadsRegisterType::Rs => SigReadsRegisterType::Rs,
            ReadsRegisterType::Rt => SigReadsRegisterType::Rt,
            ReadsRegisterType::OffRs => SigReadsRegisterType::OffRs,
            ReadsRegisterType::OffRt => SigReadsRegisterType::OffRt,
        }
    }
}

impl CompileYaml {
    /// A catalog compile shape holds no placeholder argument.
    pub open spec fn no_placeholder(self) -> bool {
        forall|i: int| 0 <= i < self.format@.len() ==> self.format@[i] != ArgumentType::Rx
    }

    /// Converts the compile shape to its signature form.
    pub fn to_signature(&self) -> (r: CompileSignature)
        requires
            self.no_placeholder(),
        ensures
            r.format@ == self.format@.map_values(|a: ArgumentType| arg_sig_spec(a)),
            r.relative_label == self.relative_label,
    {
        let mut format: Vec<SigArgumentType> = Vec::new();
        let mut i: usize = 0;
        while i < self.format.len()
            invariant
                self.no_placeholder(),
                i <= self.format@.len(),
                format@ == self.format@.take(i as int).map_values(
                    |a: ArgumentType| arg_sig_spec(a),
                ),
            decreases self.format@.len() - i,
        {
            format.push(self.format[i].to_signature());
            proof {
                assert(self.format@.take(i as int).push(self.format@[i as int]) =~= self.format@
                    .take(i as int + 1));
                assert(self.format@.take(i as int).map_values(|a: ArgumentType| arg_sig_spec(a))
                    .push(arg_sig_spec(self.format@[i as int])) =~= self.format@.take(
                    i as int + 1,
                ).map_values(|a: ArgumentType| arg_sig_spec(a)));
            }
            i = i + 1;
        }
        proof {
            assert(self.format@.take(self.format@.len() as int) =~= self.format@);
        }
        CompileSignature::new(format, self.relative_label)
    }
}

impl RuntimeYaml {
    /// I-type and J-type entries must carry an opcode.
    pub open spec fn opcode_present(self) -> bool {
        self.inst_type != InstructionType::R ==> self.opcode is Some
    }

    /// What the runtime shape converts to.
    pub open spec fn runtime_sig_spec(self) -> RuntimeSignature {
        match self.inst_type {
            InstructionType::R => RuntimeSignature::R {
                opcode: if self.opcode is Some {
                    self.opcode->0
                } else {
                    0u8
                },
                funct: if self.funct is Some {
                    self.funct->0
                } else {
                    0u8
                },
                shamt: self.shamt,
                rs: self.rs,
                rt: self.rt,
                rd: self.rd,
            },
            InstructionType::I => RuntimeSignature::I { opcode: self.opcode->0, rt: self.rt },
            InstructionType::J => RuntimeSignature::J { opcode: self.opcode->0 },
        }
    }

    /// Converts the runtime shape to its encoding signature.
    pub fn to_runtime_signature(&self) -> (r: RuntimeSignature)
        requires
            self.opcode_present(),
        ensures
            r == self.runtime_sig_spec(),
    {
        match self.inst_type {
            InstructionType::R => RuntimeSignature::R {
                opcode: match self.opcode {
                    Some(o) => o,
                    None => 0,
                },
                funct: match self.funct {
                    Some(f) => f,
                    None => 0,
                },
                shamt: self.shamt,
                rs: self.rs,
                rt: self.rt,
                rd: self.rd,
            },
            InstructionType::I => RuntimeSignature::I {
                opcode: match self.opcode {
                    Some(o) => o,
                    None => 0,
                },
                rt: self.rt,
            },
            InstructionType::J => RuntimeSignature::J {
                opcode: match self.opcode {
                    Some(o) => o,
                    None => 0,
                },
            },
        }
    }

    /// Converts the read set to its signature form.
    pub fn to_metadata(&self) -> (r: RuntimeMetadata)
        ensures
            r.reads@ == self.reads@.map_values(|a: ReadsRegisterType| reads_sig_spec(a)),
    {
        let mut reads: Vec<SigReadsRegisterType> = Vec::new();
        let mut i: usize = 0;
        while i < self.reads.len()
            invariant
                i <= self.reads@.len(),
                reads@ == self.reads@.take(i as int).map_values(
                    |a: ReadsRegisterType| reads_sig_spec(a),
                ),
            decreases self.reads@.len() - i,
        {
            reads.push(self.reads[i].to_signature());
            proof {
                assert(self.reads@.take(i as int).push(self.reads@[i as int]) =~= self.reads@.take(
                    i as int + 1,
                ));
                assert(self.reads@.take(i as int).map_values(
                    |a: ReadsRegisterType| reads_sig_spec(a),
                ).push(reads_sig_spec(self.reads@[i as int])) =~= self.reads@.take(i as int + 1)
                    .map_values(|a: ReadsRegisterType| reads_sig_spec(a)));
            }
            i = i + 1;
        }
        proof {
            assert(self.reads@.take(self.reads@.len() as int) =~= self.reads@);
        }
        RuntimeMetadata::new(reads)
    }
}

impl InstructionYaml {
    /// Converts a catalog entry into a resolved signature: the name is
    /// lowercased and the shapes are converted one for one.
    pub fn to_signature(self) -> (r: InstSignature)
        requires
            self.compile.no_placeholder(),
            self.runtime.opcode_present(),
        ensures
            r.name@ == self.name@.map_values(|c: char| lower_char(c)),
            r.compile.format@ == self.compile.format@.map_values(
                |a: ArgumentType| arg_sig_spec(a),
            ),
            r.compile.relative_label == self.compile.relative_label,
            r.runtime == self.runtime.runtime_sig_spec(),
            r.runtime_metadata.reads@ == self.runtime.reads@.map_values(
                |a: ReadsRegisterType| reads_sig_spec(a),
            ),
            r.metadata.desc_short == self.desc_short,
            r.metadata.desc_long == self.desc_long,
    {
        InstSignature::new(
            to_ascii_lower(&self.name),
            self.compile.to_signature(),
            self.runtime.to_runtime_signature(),
            self.runtime.to_metadata(),
            InstMetadata::new(self.desc_short, self.desc_long),
        )
    }
}

impl InstructionExpansionYaml {
    /// Converts one expansion line.
    pub fn to_expand(self) -> (r: PseudoExpand)
        ensures
            r.inst == self.inst,
            r.data == self.data,
    {
        PseudoExpand::new(self.inst, self.data)
    }
}

impl PseudoInstructionYaml {
    /// Converts a pseudo-instruction entry into its resolved signature.
    pub fn to_signature(self) -> (r: PseudoSignature)
        requires
            self.compile.no_placeholder(),
        ensures
            r.name@ == self.name@.map_values(|c: char| lower_char(c)),
            r.compile.format@ == self.compile.format@.map_values(
                |a: ArgumentType| arg_sig_spec(a),
            ),
            r.compile.relative_label == self.compile.relative_label,
            r.expand@.len() == self.expand@.len(),
            forall|i: int|
                0 <= i < self.expand@.len() ==> #[trigger] r.expand@[i].inst == self.expand@[i].inst
                    && r.expand@[i].data == self.expand@[i].data,
    {
        let compile = self.compile.to_signature();
        let name = to_ascii_lower(&self.name);
        let mut expand: Vec<PseudoExpand> = Vec::new();
        let mut rest = self.expand;
        let ghost all = rest@;
        let total = rest.len();
        proof {
            assert(all.len() == total);
        }
        let mut i: usize = 0;
        while rest.len() > 0
            invariant
                all.len() <= usize::MAX,
                i + rest@.len() == all.len(),
                rest@ == all.skip(i as int),
                expand@.len() == i,
                forall|j: int|
                    0 <= j < i ==> #[trigger] expand@[j].inst == all[j].inst && expand@[j].data
                        == all[j].data,
            decreases rest@.len(),
        {
            let e = rest.remove(0);
            expand.push(e.to_expand());
            i = i + 1;
            proof {
                assert(all.skip(i - 1).drop_first() =~= all.skip(i as int));
                assert(all.skip(i - 1)[0] == all[i - 1]);
            }
        }
        PseudoSignature::new(name, compile, expand)
    }
}

} // verus!
