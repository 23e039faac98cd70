//! Allocation contexts, the backends they select, and the manager that
//! dispatches between them.

pub mod align;
pub mod bump;
pub mod context;
pub mod janitor;
pub mod manager;
pub mod system;
pub mod theorems;
pub mod trace;

pub use bump::BumpAllocator;
pub use bump::BUMP_CAPACITY;
pub use bump::MAX_SUPPORTED_ALIGN;
pub use context::AllocationContext;
pub use context::ContextStack;
pub use context::CONTEXT_CAPACITY;
pub use janitor::Janitor;
pub use manager::AllocationInfo;
pub use manager::AllocatorManager;
pub use manager::ManagerState;
pub use manager::Placement;
pub use system::SystemAllocator;
