use vstd::prelude::*;

verus! {

/// Consumes a string.
pub trait Print {
    fn print(&self, data: &str);
}

/// Writes to the console.
#[derive(Clone, Copy, Debug, PartialEq, Eq, Structural)]
pub struct RealPrinter;

impl RealPrinter {
    pub fn new() -> (r: Self) {
        RealPrinter
    }
}

/// Writes to the file at `file`, replacing what it held.
pub struct FilePrinter {
    file: String,
}

impl FilePrinter {
    /// The path written to.
    pub closed spec fn path(&self) -> Seq<char> {
        self.file@
    }

    pub fn new(file: String) -> (r: Self)
        ensures
            r.path() == file@,
    {
        FilePrinter { file }
    }

    /// The path written to.
    pub fn file(&self) -> (r: &str)
        ensures
            r@ == self.path(),
    {
        self.file.as_str()
    }
}

impl Clone for FilePrinter {
    fn clone(&self) -> (r: Self)
        ensures
            r == *self,
    {
        FilePrinter { file: self.file.clone() }
    }
}

/// The printer a container hands out, chosen from its configuration.
pub enum Printer {
    Console(RealPrinter),
    File(FilePrinter),
}

impl Printer {
    /// Where the output goes: `None` for the console, else a file path.
    pub open spec fn target(&self) -> Option<Seq<char>> {
        match self {
            Printer::Console(_) => None,
            Printer::File(f) => Some(f.path()),
        }
    }

    /// Picks the file printer when a path is configured, else the console.
    pub fn for_target(file: &Option<String>) -> (r: Self)
        ensures
            r == printer_for(*file),
            r.target() == file_target(*file),
    {
        match file {
            Some(path) => Printer::File(FilePrinter { file: path.clone() }),
            None => Printer::Console(RealPrinter::new()),
        }
    }
}

impl Clone for Printer {
    fn clone(&self) -> (r: Self)
        ensures
            r == *self,
    {
        match self {
            Printer::Console(p) => Printer::Console(*p),
            Printer::File(f) => Printer::File(f.clone()),
        }
    }
}

/// The printer chosen for a configured path.
pub closed spec fn printer_for(file: Option<String>) -> Printer {
    match file {
        Some(path) => Printer::File(FilePrinter { file: path }),
        None => Printer::Console(RealPrinter),
    }
}

/// The output target that a configured path names.
pub open spec fn file_target(file: Option<String>) -> Option<Seq<char>> {
    match file {
        Some(path) => Some(path@),
        None => None,
    }
}

} // verus!
