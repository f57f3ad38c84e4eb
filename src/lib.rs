pub mod riscv;
pub mod memory;
pub mod process;
pub mod fairness;
pub mod paging;
pub mod usermode;
pub mod exception;
pub mod syscall;
pub mod string;
pub mod kernel;
pub mod disk;
pub mod fat;
pub mod shell;
pub use kernel::init;
