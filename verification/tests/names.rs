use lib_x86::opcodes::{OperandType, X86Opcode};
use lib_x86::register_aliases::RegisterAlias;
use lib_x86::registers::{RegisterWidth, Registers};
use lib_x86::types::error::VmRuntimeError;
use lib_x86::types::file_descriptors::DescriptorLike;
use lib_x86::types::policy::ValidationPolicy;

#[test]
fn every_name_describes_the_empty_view() {
    for name in [
        RegisterAlias::RAX,
        RegisterAlias::EAX,
        RegisterAlias::AX,
        RegisterAlias::AL,
        RegisterAlias::RDI,
        RegisterAlias::SPL,
        RegisterAlias::R0D,
        RegisterAlias::R14D,
    ] {
        let alias = name.describe();
        assert_eq!(alias.offset, 0);
        assert_eq!(alias.width, 0);
        assert_eq!(alias.range(), 0..0);
        let file = Registers::<128>::new(RegisterWidth::Fixed(64));
        assert!(matches!(
            file.safety_check(alias),
            Err(VmRuntimeError::InvalidAlias { offset: 0, width: 0 })
        ));
    }
    assert_eq!(RegisterAlias::RAX, RegisterAlias::RAX);
    assert_ne!(RegisterAlias::RAX, RegisterAlias::EAX);
}

#[test]
fn the_default_policy_is_checked() {
    assert_eq!(ValidationPolicy::default(), ValidationPolicy::Checked);
    assert_ne!(ValidationPolicy::Checked, ValidationPolicy::Unchecked);
}

#[test]
fn opcodes_carry_their_operands() {
    let add = X86Opcode::AddR8M8(OperandType::Register(3), OperandType::Memory(0x40));
    match add {
        X86Opcode::AddR8M8(OperandType::Register(r), OperandType::Memory(m)) => {
            assert_eq!(r, 3);
            assert_eq!(m, 0x40);
        }
        _ => unreachable!(),
    }
    assert!(matches!(X86Opcode::Push(5), X86Opcode::Push(5)));
}

struct Sink {
    taken: Vec<u8>,
}

impl DescriptorLike for Sink {
    fn write(&mut self, buf: &[u8]) -> Result<u64, VmRuntimeError> {
        self.taken.extend_from_slice(buf);
        Ok(buf.len() as u64)
    }

    fn read(&mut self, buf: &mut [u8]) -> Result<u64, VmRuntimeError> {
        if self.taken.is_empty() {
            return Err(VmRuntimeError::FdReadError { code: 5, message: String::from("empty") });
        }
        let n = buf.len().min(self.taken.len());
        buf[..n].copy_from_slice(&self.taken[..n]);
        Ok(n as u64)
    }
}

#[test]
fn a_descriptor_moves_bytes_and_counts_them() {
    let mut sink = Sink { taken: Vec::new() };
    let mut buf = [0u8; 4];
    assert!(matches!(
        sink.read(&mut buf),
        Err(VmRuntimeError::FdReadError { code: 5, .. })
    ));
    assert_eq!(sink.write(&[1, 2, 3]).unwrap(), 3);
    assert_eq!(sink.read(&mut buf).unwrap(), 3);
    assert_eq!(buf, [1, 2, 3, 0]);
}
