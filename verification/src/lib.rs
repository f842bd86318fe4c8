//! Verified core of a dynamic binary translator targeting x86-64 and of the
//! hypervisor-side helpers it runs with.
pub mod bits;
pub mod width;
pub mod registers;
pub mod encoder;
pub mod assembler;
pub mod asm_forms;
pub mod lowering;
pub mod ir;
pub mod fold;
pub mod unary;
pub mod extract;
pub mod encode;
pub mod context;
pub mod regset;
pub mod regalloc;
pub mod layout;
pub mod emitter;
pub mod checked;
pub mod flags;
pub mod statements;
pub mod dag;
pub mod bitset;
pub mod vmx;
pub mod irq;
pub mod pl011;
pub mod vmcs;
pub mod machine;
pub mod config;
pub mod naive;
pub mod sysreg;
pub mod ept;
pub mod virtio;
pub mod vmcs_setup;
pub mod text;
pub mod vmcs_report;
