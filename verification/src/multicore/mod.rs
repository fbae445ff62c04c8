//! The application cores: their identities, the locks between them, the messages between them,
//! and how a worker core is started.

pub mod cpu;
pub mod hw_mutex;
pub mod mailbox;
pub mod spawn;
pub mod sph;

pub use cpu::Core;
pub use hw_mutex::{HwMutex, HwMutexGuard};
pub use mailbox::{Full, Inbox, Mailbox, Message, Outbox};
pub use spawn::{spawn, Cores, SpawnError, Stack, Worker};
pub use sph::{Sph, COUNT, RESERVED_CS_ID};
