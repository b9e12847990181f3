//! The table of optional OS entry points: each is looked up at most once,
//! and each library is loaded at most once, for the life of the table.
use vstd::prelude::*;

verus! {

/// The system libraries that hold the optional entry points.
#[derive(Clone, Copy, Debug, PartialEq, Eq, Structural)]
pub enum Library {
    /// The window manager's library, `user32.dll`.
    User32,
    /// The display scaling library, `shcore.dll`.
    Shcore,
}

/// The optional entry points, each found on some OS versions only.
#[derive(Clone, Copy, Debug, PartialEq, Eq, Structural)]
pub enum Symbol {
    /// The per-window DPI query.
    GetDpiForWindow,
    /// The per-monitor DPI query.
    GetDpiForMonitor,
}

/// The file name of `l`, as the loader takes it: ASCII, ending in a NUL.
pub open spec fn library_name(l: Library) -> Seq<char> {
    match l {
        Library::User32 => "user32.dll\0"@,
        Library::Shcore => "shcore.dll\0"@,
    }
}

/// The exported name of `s`, as the symbol lookup takes it: ending in a NUL.
pub open spec fn symbol_name(s: Symbol) -> Seq<char> {
    match s {
        Symbol::GetDpiForWindow => "GetDpiForWindow\0"@,
        Symbol::GetDpiForMonitor => "GetDpiForMonitor\0"@,
    }
}

/// The library that exports `s`.
pub open spec fn library_of(s: Symbol) -> Library {
    match s {
        Symbol::GetDpiForWindow => Library::User32,
        Symbol::GetDpiForMonitor => Library::Shcore,
    }
}

impl Library {
    /// The file name to load.
    pub fn name(self) -> (r: &'static str)
        ensures
            r@ == library_name(self),
            r@.len() > 0,
            r@.last() == '\0',
    {
        match self {
            Library::User32 => {
                proof {
                    reveal_strlit("user32.dll\0");
                }
                "user32.dll\0"
            },
            Library::Shcore => {
                proof {
                    reveal_strlit("shcore.dll\0");
                }
                "shcore.dll\0"
            },
        }
    }
}

impl Symbol {
    /// The exported name to look up.
    pub fn name(self) -> (r: &'static str)
        ensures
            r@ == symbol_name(self),
            r@.len() > 0,
            r@.last() == '\0',
    {
        match self {
            Symbol::GetDpiForWindow => {
                proof {
                    reveal_strlit("GetDpiForWindow\0");
                }
                "GetDpiForWindow\0"
            },
            Symbol::GetDpiForMonitor => {
                proof {
                    reveal_strlit("GetDpiForMonitor\0");
                }
                "GetDpiForMonitor\0"
            },
        }
    }

    /// The library to load before looking the symbol up.
    pub fn library(self) -> (r: Library)
        ensures
            r == library_of(self),
    {
        match self {
            Symbol::GetDpiForWindow => Library::User32,
            Symbol::GetDpiForMonitor => Library::Shcore,
        }
    }
}

/// What the table knows of one entry point.
#[derive(Clone, Copy, Debug, PartialEq, Eq, Structural)]
pub enum Resolution {
    /// Not looked up yet.
    Unresolved,
    /// Looked up once and for all: its address, or `None` where the library
    /// or the symbol was absent.
    Resolved(Option<usize>),
}

/// What the caller has to do to learn the address of an entry point.
#[derive(Clone, Copy, Debug, PartialEq, Eq, Structural)]
pub enum SymbolRequest {
    /// Nothing: the outcome is already known.
    Cached(Option<usize>),
    /// Load the library, then report its module handle with `record_library`.
    LoadLibrary(Library),
    /// Look the symbol up in the loaded module, then report its address with
    /// `record_symbol`.
    FindSymbol(usize, Symbol),
}

/// The loaded libraries and the outcome of each lookup made so far.
pub struct SymbolTable {
    user32: Option<usize>,
    shcore: Option<usize>,
    get_dpi_for_window: Resolution,
    get_dpi_for_monitor: Resolution,
}

/// The request that answers for `s` in a table with these loaded modules and
/// lookups.
pub open spec fn request_of(entry: Resolution, module: Option<usize>, s: Symbol) -> SymbolRequest {
    match entry {
        Resolution::Resolved(v) => SymbolRequest::Cached(v),
        Resolution::Unresolved => match module {
            Some(m) => SymbolRequest::FindSymbol(m, s),
            None => SymbolRequest::LoadLibrary(library_of(s)),
        },
    }
}

impl SymbolTable {
    /// The module handle of `l`, once it has been loaded.
    pub closed spec fn module(self, l: Library) -> Option<usize> {
        match l {
            Library::User32 => self.user32,
            Library::Shcore => self.shcore,
        }
    }

    /// What is known of `s`.
    pub closed spec fn entry(self, s: Symbol) -> Resolution {
        match s {
            Symbol::GetDpiForWindow => self.get_dpi_for_window,
            Symbol::GetDpiForMonitor => self.get_dpi_for_monitor,
        }
    }

    /// No module handle and no address held is null.
    pub open spec fn wf(self) -> bool {
        &&& forall|l: Library| #[trigger] self.module(l) != Some(0usize)
        &&& forall|s: Symbol| #[trigger] self.entry(s) != Resolution::Resolved(Some(0usize))
    }

    /// The request that `request` answers for `s`.
    pub open spec fn request_for(self, s: Symbol) -> SymbolRequest {
        request_of(self.entry(s), self.module(library_of(s)), s)
    }

    /// `self` is `prev` after loading `l` gave the module handle `module`
    /// (null on failure): a library already loaded keeps its handle; a failed
    /// load settles every pending symbol of the library as absent.
    pub open spec fn library_recorded(self, prev: SymbolTable, l: Library, module: usize) -> bool {
        &&& forall|l2: Library|
            #[trigger] self.module(l2) == if l2 == l && prev.module(l) is None && module != 0 {
                Some(module)
            } else {
                prev.module(l2)
            }
        &&& forall|s: Symbol|
            #[trigger] self.entry(s) == if library_of(s) == l && prev.module(l) is None && module
                == 0 && prev.entry(s) is Unresolved {
                Resolution::Resolved(None)
            } else {
                prev.entry(s)
            }
    }

    /// `self` is `prev` after looking `s` up gave `address` (null when
    /// absent): a symbol already resolved keeps its outcome.
    pub open spec fn symbol_recorded(self, prev: SymbolTable, s: Symbol, address: usize) -> bool {
        &&& forall|l: Library| #[trigger] self.module(l) == prev.module(l)
        &&& forall|s2: Symbol|
            #[trigger] self.entry(s2) == if s2 == s && prev.entry(s) is Unresolved {
                Resolution::Resolved(
                    if address == 0 {
                        None
                    } else {
                        Some(address)
                    },
                )
            } else {
                prev.entry(s2)
            }
    }

    /// A table with no library loaded and no symbol looked up.
    pub fn new() -> (r: SymbolTable)
        ensures
            r.wf(),
            forall|l: Library| #[trigger] r.module(l) is None,
            forall|s: Symbol| #[trigger] r.entry(s) == Resolution::Unresolved,
    {
        SymbolTable {
            user32: None,
            shcore: None,
            get_dpi_for_window: Resolution::Unresolved,
            get_dpi_for_monitor: Resolution::Unresolved,
        }
    }

    /// What is known of `s`.
    pub fn resolution(&self, s: Symbol) -> (r: Resolution)
        ensures
            r == self.entry(s),
    {
        match s {
            Symbol::GetDpiForWindow => self.get_dpi_for_window,
            Symbol::GetDpiForMonitor => self.get_dpi_for_monitor,
        }
    }

    /// The module handle of `l`, once it has been loaded.
    pub fn loaded_module(&self, l: Library) -> (r: Option<usize>)
        ensures
            r == self.module(l),
    {
        match l {
            Library::User32 => self.user32,
            Library::Shcore => self.shcore,
        }
    }

    /// The next thing to do to learn the address of `s`: nothing when it was
    /// looked up before; the lookup when its library is loaded; else the load.
    pub fn request(&self, s: Symbol) -> (r: SymbolRequest)
        ensures
            r == self.request_for(s),
    {
        match self.resolution(s) {
            Resolution::Resolved(v) => SymbolRequest::Cached(v),
            Resolution::Unresolved => match self.loaded_module(s.library()) {
                Some(m) => SymbolRequest::FindSymbol(m, s),
                None => SymbolRequest::LoadLibrary(s.library()),
            },
        }
    }

    /// Records that loading `l` gave the module handle `module`, null when
    /// the library could not be loaded.
    pub fn record_library(&mut self, l: Library, module: usize)
        requires
            old(self).wf(),
        ensures
            final(self).wf(),
            final(self).library_recorded(*old(self), l, module),
    {
        if self.loaded_module(l).is_some() {
            return;
        }
        if module != 0 {
            match l {
                Library::User32 => self.user32 = Some(module),
                Library::Shcore => self.shcore = Some(module),
            }
        } else {
            if self.get_dpi_for_window == Resolution::Unresolved && l == Library::User32 {
                self.get_dpi_for_window = Resolution::Resolved(None);
            }
            if self.get_dpi_for_monitor == Resolution::Unresolved && l == Library::Shcore {
                self.get_dpi_for_monitor = Resolution::Resolved(None);
            }
        }
        proof {
            assert forall|l2: Library| #[trigger] self.module(l2) != Some(0usize) by {
                assert(old(self).module(l2) != Some(0usize));
            }
            assert forall|s2: Symbol| #[trigger] self.entry(s2) != Resolution::Resolved(Some(0usize)) by {
                assert(old(self).entry(s2) != Resolution::Resolved(Some(0usize)));
            }
        }
    }

    /// Records that looking `s` up gave `address`, null when the library does
    /// not export it; returns what is then known of `s`.
    pub fn record_symbol(&mut self, s: Symbol, address: usize) -> (r: Option<usize>)
        requires
            old(self).wf(),
        ensures
            final(self).wf(),
            final(self).symbol_recorded(*old(self), s, address),
            final(self).entry(s) == Resolution::Resolved(r),
    {
        if let Resolution::Resolved(v) = self.resolution(s) {
            return v;
        }
        let found = if address == 0 {
            None
        } else {
            Some(address)
        };
        match s {
            Symbol::GetDpiForWindow => self.get_dpi_for_window = Resolution::Resolved(found),
            Symbol::GetDpiForMonitor => self.get_dpi_for_monitor = Resolution::Resolved(found),
        }
        proof {
            assert forall|l2: Library| #[trigger] self.module(l2) != Some(0usize) by {
                assert(old(self).module(l2) != Some(0usize));
            }
            assert forall|s2: Symbol| #[trigger] self.entry(s2) != Resolution::Resolved(Some(0usize)) by {
                assert(old(self).entry(s2) != Resolution::Resolved(Some(0usize)));
            }
        }
        found
    }
}

/// Once `s` is resolved, recording a library load or a lookup leaves its
/// outcome alone, so asking for `s` again answers with the same cached
/// outcome and asks for no load or lookup.
pub proof fn lemma_resolved_symbol_stays_cached(
    prev: SymbolTable,
    next: SymbolTable,
    s: Symbol,
    l: Library,
    module: usize,
    looked_up: Symbol,
    address: usize,
)
    requires
        prev.entry(s) is Resolved,
        next.library_recorded(prev, l, module) || next.symbol_recorded(prev, looked_up, address),
    ensures
        next.entry(s) == prev.entry(s),
        next.request_for(s) == prev.request_for(s),
        prev.request_for(s) == SymbolRequest::Cached(prev.entry(s)->Resolved_0),
{
    assert(next.entry(s) == prev.entry(s));
}

/// Once `l` is loaded, recording a library load or a lookup leaves its module
/// handle alone, and no symbol of `l` asks for it to be loaded again.
pub proof fn lemma_loaded_library_is_not_reloaded(
    prev: SymbolTable,
    next: SymbolTable,
    l: Library,
    loaded: Library,
    module: usize,
    looked_up: Symbol,
    address: usize,
)
    requires
        prev.module(l) is Some,
        next.library_recorded(prev, loaded, module) || next.symbol_recorded(
            prev,
            looked_up,
            address,
        ),
    ensures
        next.module(l) == prev.module(l),
        forall|s: Symbol|
            library_of(s) == l ==> !(#[trigger] next.request_for(s) is LoadLibrary),
{
    assert(next.module(l) == prev.module(l));
}

/// Resolving a symbol ends: reporting the outcome of the load that a request
/// asks for leads to the lookup or to a cached outcome, and reporting the
/// outcome of the lookup leads to a cached outcome.
pub proof fn lemma_resolution_ends(prev: SymbolTable, next: SymbolTable, s: Symbol, value: usize)
    ensures
        prev.request_for(s) is LoadLibrary && next.library_recorded(prev, library_of(s), value)
            ==> next.request_for(s) == if value == 0 {
            SymbolRequest::Cached(None)
        } else {
            SymbolRequest::FindSymbol(value, s)
        },
        prev.request_for(s) is FindSymbol && next.symbol_recorded(prev, s, value)
            ==> next.request_for(s) is Cached,
{
    if prev.request_for(s) is LoadLibrary && next.library_recorded(prev, library_of(s), value) {
        assert(next.entry(s) == if value == 0 { Resolution::Resolved(None) } else { prev.entry(s) });
        assert(next.module(library_of(s)) == if value == 0 { prev.module(library_of(s)) } else { Some(value) });
    }
    if prev.request_for(s) is FindSymbol && next.symbol_recorded(prev, s, value) {
        assert(next.entry(s) is Resolved);
    }
}

} // verus!
