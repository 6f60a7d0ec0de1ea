pub mod piface;

pub use self::piface::PiFace;
