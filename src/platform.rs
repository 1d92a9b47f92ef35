use vstd::prelude::*;

verus! {

/// The platform operation that failed.
#[derive(Clone, Copy, Debug, PartialEq, Eq, Structural)]
pub enum ErrorKind {
    ModuleHandle,
    RegisterClass,
    CreateWindow,
    WindowRect,
    ExtendFrame,
}

/// A failed platform call: the code that the platform reported, and which
/// operation it was.
#[derive(Clone, Copy, Debug, PartialEq, Eq, Structural)]
pub struct PlatformError {
    pub code: u32,
    pub kind: ErrorKind,
}

impl PlatformError {
    /// A short description of the failed operation.
    pub fn hint(&self) -> (r: &'static str)
        ensures
            self.kind == ErrorKind::RegisterClass ==> r@ == "failed to register window class"@,
            self.kind == ErrorKind::CreateWindow ==> r@ == "failed to create window"@,
            self.kind == ErrorKind::ModuleHandle ==> r@ == "failed to get the module handle"@,
            self.kind == ErrorKind::WindowRect ==> r@ == "failed to read the window rectangle"@,
            self.kind == ErrorKind::ExtendFrame ==> r@ == "failed to extend the frame"@,
    {
        match self.kind {
            ErrorKind::RegisterClass => "failed to register window class",
            ErrorKind::CreateWindow => "failed to create window",
            ErrorKind::ModuleHandle => "failed to get the module handle",
            ErrorKind::WindowRect => "failed to read the window rectangle",
            ErrorKind::ExtendFrame => "failed to extend the frame",
        }
    }
}

/// The outcome of a window creation request: the new window's handle, or,
/// where the platform returned the null handle, the error it reported.
pub fn creation_result(handle: isize, last_error: u32) -> (r: Result<isize, PlatformError>)
    ensures
        handle != 0 ==> r == Ok::<isize, PlatformError>(handle),
        handle == 0 ==> r == Err::<isize, PlatformError>(
            PlatformError { code: last_error, kind: ErrorKind::CreateWindow },
        ),
{
    if handle != 0 {
        Ok(handle)
    } else {
        Err(PlatformError { code: last_error, kind: ErrorKind::CreateWindow })
    }
}

/// Frame margins, in pixels, extended into the client area.
#[derive(Clone, Copy, Debug, PartialEq, Eq, Structural)]
pub struct Margins {
    pub left: i32,
    pub right: i32,
    pub top: i32,
    pub bottom: i32,
}

/// General window style description.
#[derive(Clone, Copy, Debug, PartialEq, Eq, Structural)]
pub enum WindowStyle {
    /// No titlebar; the border is drawn by the compositor.
    Borderless,
    /// No titlebar and no drop shadow.
    FlatBorderless,
}

impl WindowStyle {
    /// The margins to extend the frame by: one pixel on each side keeps the
    /// compositor's border and shadow, none removes them.
    pub fn margins(&self) -> (r: Margins)
        ensures
            *self == WindowStyle::Borderless ==> r == (Margins { left: 1, right: 1, top: 1, bottom: 1 }),
            *self == WindowStyle::FlatBorderless ==> r == (Margins {
                left: 0,
                right: 0,
                top: 0,
                bottom: 0,
            }),
    {
        match self {
            WindowStyle::Borderless => Margins { left: 1, right: 1, top: 1, bottom: 1 },
            WindowStyle::FlatBorderless => Margins { left: 0, right: 0, top: 0, bottom: 0 },
        }
    }
}

/// Whether two UTF-16 strings are equal.
fn same_units(a: &Vec<u16>, b: &Vec<u16>) -> (r: bool)
    ensures
        r == (a@ == b@),
{
    if a.len() != b.len() {
        return false;
    }
    let mut i: usize = 0;
    while i < a.len()
        invariant
            a@.len() == b@.len(),
            i <= a@.len(),
            forall|j: int| 0 <= j < i ==> a@[j] == b@[j],
        decreases a@.len() - i,
    {
        if a[i] != b[i] {
            return false;
        }
        i = i + 1;
    }
    assert(a@ =~= b@);
    true
}

/// The window classes that this process has registered, by UTF-16 name.
pub struct ClassRegistry {
    names: Vec<Vec<u16>>,
}

impl View for ClassRegistry {
    type V = Set<Seq<u16>>;

    closed spec fn view(&self) -> Set<Seq<u16>> {
        Set::new(|n: Seq<u16>| exists|i: int| 0 <= i < self.names@.len() && self.names@[i]@ == n)
    }
}

impl ClassRegistry {
    pub fn new() -> (r: ClassRegistry)
        ensures
            r@ == Set::<Seq<u16>>::empty(),
    {
        let r = ClassRegistry { names: Vec::new() };
        assert(r@ =~= Set::<Seq<u16>>::empty());
        r
    }

    /// Whether the class `name` was registered already, so that registering
    /// it again is to be skipped.
    pub fn is_registered(&self, name: &Vec<u16>) -> (r: bool)
        ensures
            r == self@.contains(name@),
    {
        let mut i: usize = 0;
        while i < self.names.len()
            invariant
                i <= self.names@.len(),
                forall|j: int| 0 <= j < i ==> self.names@[j]@ != name@,
            decreases self.names@.len() - i,
        {
            if same_units(&self.names[i], name) {
                return true;
            }
            i = i + 1;
        }
        false
    }

    /// Records the outcome of registering the class `name`: a non-zero atom
    /// is success and the class is registered from then on; a zero atom is
    /// the failure whose code the platform reported, and nothing changes.
    pub fn record(&mut self, name: Vec<u16>, atom: u16, last_error: u32) -> (r: Result<
        u16,
        PlatformError,
    >)
        ensures
            atom != 0 ==> r == Ok::<u16, PlatformError>(atom) && final(self)@ == old(self)@.insert(
                name@,
            ),
            atom == 0 ==> r == Err::<u16, PlatformError>(
                PlatformError { code: last_error, kind: ErrorKind::RegisterClass },
            ) && final(self)@ == old(self)@,
    {
        if atom != 0 {
            let ghost before = self.names@;
            self.names.push(name);
            assert(self@ =~= old(self)@.insert(name@)) by {
                assert(self.names@ == before.push(name));
                assert forall|n: Seq<u16>| #[trigger] self@.contains(n) implies old(self)@.insert(
                    name@,
                ).contains(n) by {
                    let i = choose|i: int| 0 <= i < self.names@.len() && self.names@[i]@ == n;
                    if i < before.len() {
                        assert(before[i]@ == n);
                    }
                }
                assert forall|n: Seq<u16>| #[trigger] old(self)@.insert(name@).contains(n) implies self@.contains(
                    n,
                ) by {
                    if n == name@ {
                        assert(self.names@[before.len() as int]@ == n);
                    } else {
                        let i = choose|i: int| 0 <= i < before.len() && before[i]@ == n;
                        assert(self.names@[i]@ == n);
                    }
                }
            }
            Ok(atom)
        } else {
            Err(PlatformError { code: last_error, kind: ErrorKind::RegisterClass })
        }
    }
}

/// Once a class is recorded as registered, the registry reports it as
/// registered, so a second registration of the same class is skipped.
pub proof fn lemma_registration_idempotent(before: Set<Seq<u16>>, name: Seq<u16>)
    ensures
        before.insert(name).contains(name),
        before.insert(name).insert(name) == before.insert(name),
{
    assert(before.insert(name).insert(name) =~= before.insert(name));
}

} // verus!
