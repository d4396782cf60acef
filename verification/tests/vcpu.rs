use hyperlight::memory_region::{
    gpa_range_flags, gpa_range_mapping, GpaRangeMapping, MemoryRegion, MemoryRegionFlags,
    MEMORY_REGION_FLAG_EXECUTE, MEMORY_REGION_FLAG_NONE, MEMORY_REGION_FLAG_READ,
    MEMORY_REGION_FLAG_STACK_GUARD, MEMORY_REGION_FLAG_WRITE,
};
use hyperlight::vcpu_registers::{
    fpu_register_names, fpu_register_values, general_register_names, general_register_values,
    general_registers_from_values, special_register_names, special_registers_from_values,
    split_register_pairs, xmm_register_value, RegisterValue, WHvFPURegisters,
    WHvGeneralRegisters, X64Register,
};

fn gp() -> WHvGeneralRegisters {
    WHvGeneralRegisters {
        rax: 1,
        rbx: 2,
        rcx: 3,
        rdx: 4,
        rsi: 5,
        rdi: 6,
        rsp: 7,
        rbp: 8,
        r8: 9,
        r9: 10,
        r10: 11,
        r11: 12,
        r12: 13,
        r13: 14,
        r14: 15,
        r15: 16,
        rip: 0x1000,
        rflags: 0x2,
    }
}

#[test]
fn general_registers_round_trip() {
    let regs = gp();
    let values = general_register_values(&regs);
    let read: Vec<u64> = values
        .iter()
        .map(|v| match v {
            RegisterValue::Reg64(x) => *x,
            other => panic!("unexpected {:?}", other),
        })
        .collect();
    assert_eq!(general_registers_from_values(&read), regs);
}

#[test]
fn general_register_order() {
    let names = general_register_names();
    assert_eq!(names.len(), 18);
    assert_eq!(names[0], X64Register::Rax);
    assert_eq!(names[7], X64Register::Rbp);
    assert_eq!(names[16], X64Register::Rip);
    assert_eq!(names[17], X64Register::Rflags);
    let values = general_register_values(&gp());
    assert_eq!(values[16], RegisterValue::Reg64(0x1000));
}

#[test]
fn special_registers_from_values_in_order() {
    let names = special_register_names();
    assert_eq!(names.len(), 17);
    assert_eq!(names[0], X64Register::Cr0);
    assert_eq!(names[16], X64Register::Idtr);
    let out: Vec<RegisterValue> =
        (0..17u64).map(|i| RegisterValue::Reg128 { low64: i, high64: 100 + i }).collect();
    let s = special_registers_from_values(&out);
    assert_eq!(s.cr0, RegisterValue::Reg128 { low64: 0, high64: 100 });
    assert_eq!(s.efer, RegisterValue::Reg128 { low64: 5, high64: 105 });
    assert_eq!(s.cs, RegisterValue::Reg128 { low64: 7, high64: 107 });
    assert_eq!(s.idtr, RegisterValue::Reg128 { low64: 16, high64: 116 });
}

#[test]
fn xmm_register_is_split_into_halves() {
    let x: u128 = 0x0011_2233_4455_6677_8899_aabb_ccdd_eeff;
    assert_eq!(
        xmm_register_value(x),
        RegisterValue::Fp { low64: 0x8899_aabb_ccdd_eeff, high64: 0x0011_2233_4455_6677 }
    );
}

#[test]
fn fpu_values_in_order() {
    let mut f = WHvFPURegisters {
        xmm0: 0,
        xmm1: 0,
        xmm2: 0,
        xmm3: 0,
        xmm4: 0,
        xmm5: 0,
        xmm6: 0,
        xmm7: 0,
        xmm8: 0,
        xmm9: 0,
        xmm10: 0,
        xmm11: 0,
        xmm12: 0,
        xmm13: 0,
        xmm14: 0,
        xmm15: 0,
        mmx0: 0,
        mmx1: 0,
        mmx2: 0,
        mmx3: 0,
        mmx4: 0,
        mmx5: 0,
        mmx6: 0,
        mmx7: 0,
        fp_control_word: 0x37f,
        fp_tag_word: 0xff,
        mxcsr: 0x1f80,
    };
    f.xmm15 = (5u128 << 64) | 6;
    f.mmx7 = 77;
    let names = fpu_register_names();
    let values = fpu_register_values(&f);
    assert_eq!(names.len(), 26);
    assert_eq!(values.len(), 26);
    assert_eq!(names[15], X64Register::Xmm15);
    assert_eq!(values[15], RegisterValue::Fp { low64: 6, high64: 5 });
    assert_eq!(names[23], X64Register::FpMmx7);
    assert_eq!(values[23], RegisterValue::Reg64(77));
    assert_eq!(names[24], X64Register::FpControlStatus);
    assert_eq!(values[24], RegisterValue::FpControlStatus { fp_control: 0x37f, fp_tag: 0xff });
    assert_eq!(names[25], X64Register::XmmControlStatus);
    assert_eq!(values[25], RegisterValue::XmmControlStatus { xmm_status_control: 0x1f80 });
}

#[test]
fn register_pairs_are_split_in_order() {
    let pairs = vec![
        (X64Register::Rip, RegisterValue::Reg64(0x1000)),
        (X64Register::Rsp, RegisterValue::Reg64(0x2000)),
    ];
    let (names, values) = split_register_pairs(&pairs);
    assert_eq!(names, vec![X64Register::Rip, X64Register::Rsp]);
    assert_eq!(values, vec![RegisterValue::Reg64(0x1000), RegisterValue::Reg64(0x2000)]);
}

#[test]
fn gpa_flags_follow_region_flags() {
    let f = |bits: u32| gpa_range_flags(MemoryRegionFlags { bits });
    assert_eq!(f(MEMORY_REGION_FLAG_NONE), 0);
    assert_eq!(f(MEMORY_REGION_FLAG_READ), 1);
    assert_eq!(f(MEMORY_REGION_FLAG_WRITE), 2);
    assert_eq!(f(MEMORY_REGION_FLAG_EXECUTE), 4);
    assert_eq!(f(MEMORY_REGION_FLAG_READ | MEMORY_REGION_FLAG_WRITE | MEMORY_REGION_FLAG_EXECUTE), 7);
    assert_eq!(f(MEMORY_REGION_FLAG_STACK_GUARD), 0);
    assert_eq!(f(MEMORY_REGION_FLAG_READ | MEMORY_REGION_FLAG_STACK_GUARD), 1);
}

#[test]
fn region_mapping() {
    let region = MemoryRegion {
        guest_region: 0x1000..0x3000,
        host_region: 0x7f00_0000..0x7f00_2000,
        flags: MemoryRegionFlags { bits: MEMORY_REGION_FLAG_READ | MEMORY_REGION_FLAG_WRITE },
    };
    assert_eq!(
        gpa_range_mapping(&region),
        GpaRangeMapping {
            source_address: 0x7f00_0000,
            guest_address: 0x1000,
            size_in_bytes: 0x2000,
            flags: 3
        }
    );
}
