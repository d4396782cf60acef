//! The register lists and values that a virtual processor of the Windows
//! Hypervisor Platform is read and written with.
use vstd::prelude::*;

verus! {

/// The most registers that one call setting registers may carry.
pub const REGISTER_COUNT: usize = 16;

/// An x64 register of a virtual processor.
#[derive(Clone, Copy, Debug, PartialEq, Eq, Structural)]
pub enum X64Register {
    Rax,
    Rbx,
    Rcx,
    Rdx,
    Rsi,
    Rdi,
    Rsp,
    Rbp,
    R8,
    R9,
    R10,
    R11,
    R12,
    R13,
    R14,
    R15,
    Rip,
    Rflags,
    Cr0,
    Cr2,
    Cr3,
    Cr4,
    Cr8,
    Efer,
    ApicBase,
    Cs,
    Ds,
    Es,
    Fs,
    Gs,
    Ss,
    Tr,
    Ldtr,
    Gdtr,
    Idtr,
    Xmm0,
    Xmm1,
    Xmm2,
    Xmm3,
    Xmm4,
    Xmm5,
    Xmm6,
    Xmm7,
    Xmm8,
    Xmm9,
    Xmm10,
    Xmm11,
    Xmm12,
    Xmm13,
    Xmm14,
    Xmm15,
    FpMmx0,
    FpMmx1,
    FpMmx2,
    FpMmx3,
    FpMmx4,
    FpMmx5,
    FpMmx6,
    FpMmx7,
    FpControlStatus,
    XmmControlStatus,
}

/// The value of one register, by the form in which it is read or written.
#[derive(Clone, Copy, Debug, PartialEq, Eq, Structural)]
pub enum RegisterValue {
    /// A 64-bit register.
    Reg64(u64),
    /// A 128-bit register, as its two halves.
    Reg128 { low64: u64, high64: u64 },
    /// A floating-point (XMM) register, as its two halves.
    Fp { low64: u64, high64: u64 },
    /// The x87 control word and tag word; the other fields are zero.
    FpControlStatus { fp_control: u16, fp_tag: u8 },
    /// The MXCSR; the mask is zero.
    XmmControlStatus { xmm_status_control: u32 },
}

/// The general purpose registers of a virtual processor.
#[derive(Clone, Copy, Debug, PartialEq, Eq, Structural)]
pub struct WHvGeneralRegisters {
    pub rax: u64,
    pub rbx: u64,
    pub rcx: u64,
    pub rdx: u64,
    pub rsi: u64,
    pub rdi: u64,
    pub rsp: u64,
    pub rbp: u64,
    pub r8: u64,
    pub r9: u64,
    pub r10: u64,
    pub r11: u64,
    pub r12: u64,
    pub r13: u64,
    pub r14: u64,
    pub r15: u64,
    pub rip: u64,
    pub rflags: u64,
}

/// The special registers of a virtual processor, as read.
#[derive(Clone, Copy, Debug, PartialEq, Eq, Structural)]
pub struct WHvSpecialRegisters {
    pub cr0: RegisterValue,
    pub cr2: RegisterValue,
    pub cr3: RegisterValue,
    pub cr4: RegisterValue,
    pub cr8: RegisterValue,
    pub efer: RegisterValue,
    pub apic_base: RegisterValue,
    pub cs: RegisterValue,
    pub ds: RegisterValue,
    pub es: RegisterValue,
    pub fs: RegisterValue,
    pub gs: RegisterValue,
    pub ss: RegisterValue,
    pub tr: RegisterValue,
    pub ldtr: RegisterValue,
    pub gdtr: RegisterValue,
    pub idtr: RegisterValue,
}

/// The floating-point registers of a virtual processor.
#[derive(Clone, Copy, Debug, PartialEq, Eq, Structural)]
pub struct WHvFPURegisters {
    pub xmm0: u128,
    pub xmm1: u128,
    pub xmm2: u128,
    pub xmm3: u128,
    pub xmm4: u128,
    pub xmm5: u128,
    pub xmm6: u128,
    pub xmm7: u128,
    pub xmm8: u128,
    pub xmm9: u128,
    pub xmm10: u128,
    pub xmm11: u128,
    pub xmm12: u128,
    pub xmm13: u128,
    pub xmm14: u128,
    pub xmm15: u128,
    pub mmx0: u64,
    pub mmx1: u64,
    pub mmx2: u64,
    pub mmx3: u64,
    pub mmx4: u64,
    pub mmx5: u64,
    pub mmx6: u64,
    pub mmx7: u64,
    pub fp_control_word: u16,
    pub fp_tag_word: u8,
    pub mxcsr: u32,
}

/// The general purpose registers, in the order in which they are read and written.
pub open spec fn general_names() -> Seq<X64Register> {
    seq![
        X64Register::Rax,
        X64Register::Rbx,
        X64Register::Rcx,
        X64Register::Rdx,
        X64Register::Rsi,
        X64Register::Rdi,
        X64Register::Rsp,
        X64Register::Rbp,
        X64Register::R8,
        X64Register::R9,
        X64Register::R10,
        X64Register::R11,
        X64Register::R12,
        X64Register::R13,
        X64Register::R14,
        X64Register::R15,
        X64Register::Rip,
        X64Register::Rflags,
    ]
}

/// The values of the general purpose registers, in the order of `general_names`.
pub open spec fn general_values(r: WHvGeneralRegisters) -> Seq<u64> {
    seq![
        r.rax,
        r.rbx,
        r.rcx,
        r.rdx,
        r.rsi,
        r.rdi,
        r.rsp,
        r.rbp,
        r.r8,
        r.r9,
        r.r10,
        r.r11,
        r.r12,
        r.r13,
        r.r14,
        r.r15,
        r.rip,
        r.rflags,
    ]
}

/// The special registers, in the order in which they are read.
pub open spec fn special_names() -> Seq<X64Register> {
    seq![
        X64Register::Cr0,
        X64Register::Cr2,
        X64Register::Cr3,
        X64Register::Cr4,
        X64Register::Cr8,
        X64Register::Efer,
        X64Register::ApicBase,
        X64Register::Cs,
        X64Register::Ds,
        X64Register::Es,
        X64Register::Fs,
        X64Register::Gs,
        X64Register::Ss,
        X64Register::Tr,
        X64Register::Ldtr,
        X64Register::Gdtr,
        X64Register::Idtr,
    ]
}

/// The values of the special registers, in the order of `special_names`.
pub open spec fn special_values(r: WHvSpecialRegisters) -> Seq<RegisterValue> {
    seq![
        r.cr0,
        r.cr2,
        r.cr3,
        r.cr4,
        r.cr8,
        r.efer,
        r.apic_base,
        r.cs,
        r.ds,
        r.es,
        r.fs,
        r.gs,
        r.ss,
        r.tr,
        r.ldtr,
        r.gdtr,
        r.idtr,
    ]
}

/// The floating-point registers, in the order in which they are written.
pub open spec fn fpu_names() -> Seq<X64Register> {
    seq![
        X64Register::Xmm0,
        X64Register::Xmm1,
        X64Register::Xmm2,
        X64Register::Xmm3,
        X64Register::Xmm4,
        X64Register::Xmm5,
        X64Register::Xmm6,
        X64Register::Xmm7,
        X64Register::Xmm8,
        X64Register::Xmm9,
        X64Register::Xmm10,
        X64Register::Xmm11,
        X64Register::Xmm12,
        X64Register::Xmm13,
        X64Register::Xmm14,
        X64Register::Xmm15,
        X64Register::FpMmx0,
        X64Register::FpMmx1,
        X64Register::FpMmx2,
        X64Register::FpMmx3,
        X64Register::FpMmx4,
        X64Register::FpMmx5,
        X64Register::FpMmx6,
        X64Register::FpMmx7,
        X64Register::FpControlStatus,
        X64Register::XmmControlStatus,
    ]
}

/// An XMM register split into its low and high 64 bits.
pub open spec fn xmm_value(x: u128) -> RegisterValue {
    RegisterValue::Fp { low64: x as u64, high64: (x >> 64u128) as u64 }
}

/// The values written for the floating-point registers, in the order of `fpu_names`.
pub open spec fn fpu_values(r: WHvFPURegisters) -> Seq<RegisterValue> {
    seq![
        xmm_value(r.xmm0),
        xmm_value(r.xmm1),
        xmm_value(r.xmm2),
        xmm_value(r.xmm3),
        xmm_value(r.xmm4),
        xmm_value(r.xmm5),
        xmm_value(r.xmm6),
        xmm_value(r.xmm7),
        xmm_value(r.xmm8),
        xmm_value(r.xmm9),
        xmm_value(r.xmm10),
        xmm_value(r.xmm11),
        xmm_value(r.xmm12),
        xmm_value(r.xmm13),
        xmm_value(r.xmm14),
        xmm_value(r.xmm15),
        RegisterValue::Reg64(r.mmx0),
        RegisterValue::Reg64(r.mmx1),
        RegisterValue::Reg64(r.mmx2),
        RegisterValue::Reg64(r.mmx3),
        RegisterValue::Reg64(r.mmx4),
        RegisterValue::Reg64(r.mmx5),
        RegisterValue::Reg64(r.mmx6),
        RegisterValue::Reg64(r.mmx7),
        RegisterValue::FpControlStatus { fp_control: r.fp_control_word, fp_tag: r.fp_tag_word },
        RegisterValue::XmmControlStatus { xmm_status_control: r.mxcsr },
    ]
}

/// The names under which the general purpose registers are read and written.
pub fn general_register_names() -> (names: Vec<X64Register>)
    ensures
        names@ == general_names(),
{
    let names = vec![
        X64Register::Rax,
        X64Register::Rbx,
        X64Register::Rcx,
        X64Register::Rdx,
        X64Register::Rsi,
        X64Register::Rdi,
        X64Register::Rsp,
        X64Register::Rbp,
        X64Register::R8,
        X64Register::R9,
        X64Register::R10,
        X64Register::R11,
        X64Register::R12,
        X64Register::R13,
        X64Register::R14,
        X64Register::R15,
        X64Register::Rip,
        X64Register::Rflags,
    ];
    assert(names@ =~= general_names());
    names
}

/// The values with which the general purpose registers are written: each
/// register as a 64-bit value, in the order of `general_register_names`.
pub fn general_register_values(regs: &WHvGeneralRegisters) -> (values: Vec<RegisterValue>)
    ensures
        values@.len() == 18,
        forall|i: int| 0 <= i < 18 ==> #[trigger] values@[i] == RegisterValue::Reg64(general_values(*regs)[i]),
{
    let values = vec![
        RegisterValue::Reg64(regs.rax),
        RegisterValue::Reg64(regs.rbx),
        RegisterValue::Reg64(regs.rcx),
        RegisterValue::Reg64(regs.rdx),
        RegisterValue::Reg64(regs.rsi),
        RegisterValue::Reg64(regs.rdi),
        RegisterValue::Reg64(regs.rsp),
        RegisterValue::Reg64(regs.rbp),
        RegisterValue::Reg64(regs.r8),
        RegisterValue::Reg64(regs.r9),
        RegisterValue::Reg64(regs.r10),
        RegisterValue::Reg64(regs.r11),
        RegisterValue::Reg64(regs.r12),
        RegisterValue::Reg64(regs.r13),
        RegisterValue::Reg64(regs.r14),
        RegisterValue::Reg64(regs.r15),
        RegisterValue::Reg64(regs.rip),
        RegisterValue::Reg64(regs.rflags),
    ];
    values
}

/// The general purpose registers from the 64-bit values read for them, in
/// the order of `general_register_names`.
pub fn general_registers_from_values(out: &Vec<u64>) -> (regs: WHvGeneralRegisters)
    requires
        out.len() == 18,
    ensures
        general_values(regs) == out@,
{
    let regs = WHvGeneralRegisters {
        rax: out[0],
        rbx: out[1],
        rcx: out[2],
        rdx: out[3],
        rsi: out[4],
        rdi: out[5],
        rsp: out[6],
        rbp: out[7],
        r8: out[8],
        r9: out[9],
        r10: out[10],
        r11: out[11],
        r12: out[12],
        r13: out[13],
        r14: out[14],
        r15: out[15],
        rip: out[16],
        rflags: out[17],
    };
    assert(general_values(regs) =~= out@);
    regs
}

/// The names under which the special registers are read.
pub fn special_register_names() -> (names: Vec<X64Register>)
    ensures
        names@ == special_names(),
{
    let names = vec![
        X64Register::Cr0,
        X64Register::Cr2,
        X64Register::Cr3,
        X64Register::Cr4,
        X64Register::Cr8,
        X64Register::Efer,
        X64Register::ApicBase,
        X64Register::Cs,
        X64Register::Ds,
        X64Register::Es,
        X64Register::Fs,
        X64Register::Gs,
        X64Register::Ss,
        X64Register::Tr,
        X64Register::Ldtr,
        X64Register::Gdtr,
        X64Register::Idtr,
    ];
    assert(names@ =~= special_names());
    names
}

/// The special registers from the values read for them, in the order of
/// `special_register_names`.
pub fn special_registers_from_values(out: &Vec<RegisterValue>) -> (regs: WHvSpecialRegisters)
    requires
        out.len() == 17,
    ensures
        special_values(regs) == out@,
{
    let regs = WHvSpecialRegisters {
        cr0: out[0],
        cr2: out[1],
        cr3: out[2],
        cr4: out[3],
        cr8: out[4],
        efer: out[5],
        apic_base: out[6],
        cs: out[7],
        ds: out[8],
        es: out[9],
        fs: out[10],
        gs: out[11],
        ss: out[12],
        tr: out[13],
        ldtr: out[14],
        gdtr: out[15],
        idtr: out[16],
    };
    assert(special_values(regs) =~= out@);
    regs
}

/// The names under which the floating-point registers are written.
pub fn fpu_register_names() -> (names: Vec<X64Register>)
    ensures
        names@ == fpu_names(),
{
    let names = vec![
        X64Register::Xmm0,
        X64Register::Xmm1,
        X64Register::Xmm2,
        X64Register::Xmm3,
        X64Register::Xmm4,
        X64Register::Xmm5,
        X64Register::Xmm6,
        X64Register::Xmm7,
        X64Register::Xmm8,
        X64Register::Xmm9,
        X64Register::Xmm10,
        X64Register::Xmm11,
        X64Register::Xmm12,
        X64Register::Xmm13,
        X64Register::Xmm14,
        X64Register::Xmm15,
        X64Register::FpMmx0,
        X64Register::FpMmx1,
        X64Register::FpMmx2,
        X64Register::FpMmx3,
        X64Register::FpMmx4,
        X64Register::FpMmx5,
        X64Register::FpMmx6,
        X64Register::FpMmx7,
        X64Register::FpControlStatus,
        X64Register::XmmControlStatus,
    ];
    assert(names@ =~= fpu_names());
    names
}

/// An XMM register as the value it is written with.
pub fn xmm_register_value(x: u128) -> (v: RegisterValue)
    ensures
        v == xmm_value(x),
{
    RegisterValue::Fp { low64: x as u64, high64: (x >> 64u32) as u64 }
}

/// The values with which the floating-point registers are written, in the
/// order of `fpu_register_names`: each XMM register split into halves, each
/// MMX register as a 64-bit value, then the x87 control and tag words and the
/// MXCSR.
pub fn fpu_register_values(regs: &WHvFPURegisters) -> (values: Vec<RegisterValue>)
    ensures
        values@ == fpu_values(*regs),
{
    let mut values: Vec<RegisterValue> = Vec::new();
    values.push(xmm_register_value(regs.xmm0));
    values.push(xmm_register_value(regs.xmm1));
    values.push(xmm_register_value(regs.xmm2));
    values.push(xmm_register_value(regs.xmm3));
    values.push(xmm_register_value(regs.xmm4));
    values.push(xmm_register_value(regs.xmm5));
    values.push(xmm_register_value(regs.xmm6));
    values.push(xmm_register_value(regs.xmm7));
    values.push(xmm_register_value(regs.xmm8));
    values.push(xmm_register_value(regs.xmm9));
    values.push(xmm_register_value(regs.xmm10));
    values.push(xmm_register_value(regs.xmm11));
    values.push(xmm_register_value(regs.xmm12));
    values.push(xmm_register_value(regs.xmm13));
    values.push(xmm_register_value(regs.xmm14));
    values.push(xmm_register_value(regs.xmm15));
    values.push(RegisterValue::Reg64(regs.mmx0));
    values.push(RegisterValue::Reg64(regs.mmx1));
    values.push(RegisterValue::Reg64(regs.mmx2));
    values.push(RegisterValue::Reg64(regs.mmx3));
    values.push(RegisterValue::Reg64(regs.mmx4));
    values.push(RegisterValue::Reg64(regs.mmx5));
    values.push(RegisterValue::Reg64(regs.mmx6));
    values.push(RegisterValue::Reg64(regs.mmx7));
    values.push(
        RegisterValue::FpControlStatus { fp_control: regs.fp_control_word, fp_tag: regs.fp_tag_word },
    );
    values.push(RegisterValue::XmmControlStatus { xmm_status_control: regs.mxcsr });
    assert(values@ =~= fpu_values(*regs));
    values
}

/// Splits register/value pairs into the list of names and the list of
/// values, in the same order. At most `REGISTER_COUNT` pairs can be set in
/// one call; setting more panics, so it is excluded.
pub fn split_register_pairs(registers: &Vec<(X64Register, RegisterValue)>) -> (split: (
    Vec<X64Register>,
    Vec<RegisterValue>,
))
    requires
        registers.len() <= REGISTER_COUNT,
    ensures
        split.0@.len() == registers.len(),
        split.1@.len() == registers.len(),
        forall|i: int|
            0 <= i < registers.len() ==> (#[trigger] registers@[i]) == (split.0@[i], split.1@[i]),
{
    let mut names: Vec<X64Register> = Vec::new();
    let mut values: Vec<RegisterValue> = Vec::new();
    let mut i: usize = 0;
    while i < registers.len()
        invariant
            i <= registers.len(),
            names@.len() == i,
            values@.len() == i,
            forall|j: int| 0 <= j < i ==> (#[trigger] registers@[j]) == (names@[j], values@[j]),
        decreases registers.len() - i,
    {
        let (name, value) = registers[i];
        names.push(name);
        values.push(value);
        i = i + 1;
    }
    (names, values)
}

/// The general purpose registers are determined by their value list: what
/// `general_registers_from_values` builds from the values that
/// `general_register_values` wrote is the registers that were written.
pub proof fn lemma_general_values_injective(a: WHvGeneralRegisters, b: WHvGeneralRegisters)
    requires
        general_values(a) == general_values(b),
    ensures
        a == b,
{
    assert(general_values(a)[0] == general_values(b)[0]);
    assert(general_values(a)[1] == general_values(b)[1]);
    assert(general_values(a)[2] == general_values(b)[2]);
    assert(general_values(a)[3] == general_values(b)[3]);
    assert(general_values(a)[4] == general_values(b)[4]);
    assert(general_values(a)[5] == general_values(b)[5]);
    assert(general_values(a)[6] == general_values(b)[6]);
    assert(general_values(a)[7] == general_values(b)[7]);
    assert(general_values(a)[8] == general_values(b)[8]);
    assert(general_values(a)[9] == general_values(b)[9]);
    assert(general_values(a)[10] == general_values(b)[10]);
    assert(general_values(a)[11] == general_values(b)[11]);
    assert(general_values(a)[12] == general_values(b)[12]);
    assert(general_values(a)[13] == general_values(b)[13]);
    assert(general_values(a)[14] == general_values(b)[14]);
    assert(general_values(a)[15] == general_values(b)[15]);
    assert(general_values(a)[16] == general_values(b)[16]);
    assert(general_values(a)[17] == general_values(b)[17]);
}

/// The special registers are determined by their value list.
pub proof fn lemma_special_values_injective(a: WHvSpecialRegisters, b: WHvSpecialRegisters)
    requires
        special_values(a) == special_values(b),
    ensures
        a == b,
{
    assert(special_values(a)[0] == special_values(b)[0]);
    assert(special_values(a)[1] == special_values(b)[1]);
    assert(special_values(a)[2] == special_values(b)[2]);
    assert(special_values(a)[3] == special_values(b)[3]);
    assert(special_values(a)[4] == special_values(b)[4]);
    assert(special_values(a)[5] == special_values(b)[5]);
    assert(special_values(a)[6] == special_values(b)[6]);
    assert(special_values(a)[7] == special_values(b)[7]);
    assert(special_values(a)[8] == special_values(b)[8]);
    assert(special_values(a)[9] == special_values(b)[9]);
    assert(special_values(a)[10] == special_values(b)[10]);
    assert(special_values(a)[11] == special_values(b)[11]);
    assert(special_values(a)[12] == special_values(b)[12]);
    assert(special_values(a)[13] == special_values(b)[13]);
    assert(special_values(a)[14] == special_values(b)[14]);
    assert(special_values(a)[15] == special_values(b)[15]);
    assert(special_values(a)[16] == special_values(b)[16]);
}

/// Each name list pairs one name with each value: the general list and its
/// values have 18 entries, the special list 17, the floating-point list and
/// its values 26, and no list names a register twice.
pub proof fn lemma_name_lists_match_values(g: WHvGeneralRegisters, f: WHvFPURegisters)
    ensures
        general_names().len() == general_values(g).len() == 18,
        special_names().len() == 17,
        fpu_names().len() == fpu_values(f).len() == 26,
        general_names().no_duplicates(),
        special_names().no_duplicates(),
        fpu_names().no_duplicates(),
{
    assert(general_names().no_duplicates());
    assert(special_names().no_duplicates());
    assert(fpu_names().no_duplicates());
}

/// The two halves an XMM register is written as put together give back the register.
pub proof fn lemma_xmm_halves(x: u128)
    ensures
        xmm_value(x) matches RegisterValue::Fp { low64, high64 } && ((high64 as u128) << 64u128)
            | (low64 as u128) == x,
{
    let low = x as u64;
    let high = (x >> 64u128) as u64;
    assert(((((x >> 64u128) as u64) as u128) << 64u128) | ((x as u64) as u128) == x) by (bit_vector);
}

/// The field of `WHvGeneralRegisters` that holds the register `name`, if
/// it is a general purpose register: `Rax` is `rax`, `R8` is `r8`, and so on.
pub open spec fn general_field(r: WHvGeneralRegisters, name: X64Register) -> Option<u64> {
    match name {
        X64Register::Rax => Some(r.rax),
        X64Register::Rbx => Some(r.rbx),
        X64Register::Rcx => Some(r.rcx),
        X64Register::Rdx => Some(r.rdx),
        X64Register::Rsi => Some(r.rsi),
        X64Register::Rdi => Some(r.rdi),
        X64Register::Rsp => Some(r.rsp),
        X64Register::Rbp => Some(r.rbp),
        X64Register::R8 => Some(r.r8),
        X64Register::R9 => Some(r.r9),
        X64Register::R10 => Some(r.r10),
        X64Register::R11 => Some(r.r11),
        X64Register::R12 => Some(r.r12),
        X64Register::R13 => Some(r.r13),
        X64Register::R14 => Some(r.r14),
        X64Register::R15 => Some(r.r15),
        X64Register::Rip => Some(r.rip),
        X64Register::Rflags => Some(r.rflags),
        _ => None,
    }
}

/// The field of `WHvSpecialRegisters` that holds the register `name`, if it
/// is a special register: `Cr0` is `cr0`, `Ds` is `ds`, and so on.
pub open spec fn special_field(r: WHvSpecialRegisters, name: X64Register) -> Option<RegisterValue> {
    match name {
        X64Register::Cr0 => Some(r.cr0),
        X64Register::Cr2 => Some(r.cr2),
        X64Register::Cr3 => Some(r.cr3),
        X64Register::Cr4 => Some(r.cr4),
        X64Register::Cr8 => Some(r.cr8),
        X64Register::Efer => Some(r.efer),
        X64Register::ApicBase => Some(r.apic_base),
        X64Register::Cs => Some(r.cs),
        X64Register::Ds => Some(r.ds),
        X64Register::Es => Some(r.es),
        X64Register::Fs => Some(r.fs),
        X64Register::Gs => Some(r.gs),
        X64Register::Ss => Some(r.ss),
        X64Register::Tr => Some(r.tr),
        X64Register::Ldtr => Some(r.ldtr),
        X64Register::Gdtr => Some(r.gdtr),
        X64Register::Idtr => Some(r.idtr),
        _ => None,
    }
}

/// The value that the register `name` is written with from the fields of
/// `WHvFPURegisters`, if it is a floating-point register: `Xmm0` from
/// `xmm0`, `FpMmx0` from `mmx0`, and so on.
pub open spec fn fpu_field(r: WHvFPURegisters, name: X64Register) -> Option<RegisterValue> {
    match name {
        X64Register::Xmm0 => Some(xmm_value(r.xmm0)),
        X64Register::Xmm1 => Some(xmm_value(r.xmm1)),
        X64Register::Xmm2 => Some(xmm_value(r.xmm2)),
        X64Register::Xmm3 => Some(xmm_value(r.xmm3)),
        X64Register::Xmm4 => Some(xmm_value(r.xmm4)),
        X64Register::Xmm5 => Some(xmm_value(r.xmm5)),
        X64Register::Xmm6 => Some(xmm_value(r.xmm6)),
        X64Register::Xmm7 => Some(xmm_value(r.xmm7)),
        X64Register::Xmm8 => Some(xmm_value(r.xmm8)),
        X64Register::Xmm9 => Some(xmm_value(r.xmm9)),
        X64Register::Xmm10 => Some(xmm_value(r.xmm10)),
        X64Register::Xmm11 => Some(xmm_value(r.xmm11)),
        X64Register::Xmm12 => Some(xmm_value(r.xmm12)),
        X64Register::Xmm13 => Some(xmm_value(r.xmm13)),
        X64Register::Xmm14 => Some(xmm_value(r.xmm14)),
        X64Register::Xmm15 => Some(xmm_value(r.xmm15)),
        X64Register::FpMmx0 => Some(RegisterValue::Reg64(r.mmx0)),
        X64Register::FpMmx1 => Some(RegisterValue::Reg64(r.mmx1)),
        X64Register::FpMmx2 => Some(RegisterValue::Reg64(r.mmx2)),
        X64Register::FpMmx3 => Some(RegisterValue::Reg64(r.mmx3)),
        X64Register::FpMmx4 => Some(RegisterValue::Reg64(r.mmx4)),
        X64Register::FpMmx5 => Some(RegisterValue::Reg64(r.mmx5)),
        X64Register::FpMmx6 => Some(RegisterValue::Reg64(r.mmx6)),
        X64Register::FpMmx7 => Some(RegisterValue::Reg64(r.mmx7)),
        X64Register::FpControlStatus => Some(
            RegisterValue::FpControlStatus { fp_control: r.fp_control_word, fp_tag: r.fp_tag_word },
        ),
        X64Register::XmmControlStatus => Some(
            RegisterValue::XmmControlStatus { xmm_status_control: r.mxcsr },
        ),
        _ => None,
    }
}

/// Reading or writing the general purpose registers pairs each register with
/// its own field: the value at each position of the value list is the field
/// of the register named at that position.
pub proof fn lemma_general_names_pair_with_fields(r: WHvGeneralRegisters)
    ensures
        forall|i: int|
            0 <= i < 18 ==> general_field(r, #[trigger] general_names()[i]) == Some(
                general_values(r)[i],
            ),
{
}

/// Reading the special registers pairs each register with its own field:
/// the value at each position is the field of the register named there.
pub proof fn lemma_special_names_pair_with_fields(r: WHvSpecialRegisters)
    ensures
        forall|i: int|
            0 <= i < 17 ==> special_field(r, #[trigger] special_names()[i]) == Some(
                special_values(r)[i],
            ),
{
}

/// Writing the floating-point registers pairs each register with its own
/// field: the value at each position is made from the field of the register
/// named there.
pub proof fn lemma_fpu_names_pair_with_fields(r: WHvFPURegisters)
    ensures
        forall|i: int|
            0 <= i < 26 ==> fpu_field(r, #[trigger] fpu_names()[i]) == Some(fpu_values(r)[i]),
{
}

} // verus!
