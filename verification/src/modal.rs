//! The pop-up that collects the address of a peer to connect to.

use vstd::prelude::*;

verus! {

/// The pattern an address has to match: a host that is not empty, a colon,
/// and a port of one to five decimal digits at the end.
pub const HOST_PORT_PATTERN: &'static str = "^.+:\\d{1,5}$";

/// What compiling `pattern` and searching `text` for it gives: `None` where
/// the pattern does not compile, else whether a match was found.
pub uninterp spec fn pattern_found(pattern: Seq<char>, text: Seq<char>) -> Option<bool>;

/// Compiles `pattern` with `regex::Regex::new` and asks `Regex::is_match` of
/// the compiled expression whether `text` holds a match. `None` stands for
/// the error that `new` returns for a pattern it does not accept. The
/// outcome is taken to depend on the two texts alone.
#[verifier::external_body]
fn find_pattern(pattern: &str, text: &str) -> (found: Option<bool>)
    ensures
        found == pattern_found(pattern@, text@),
{
    match regex::Regex::new(pattern) {
        Ok(expression) => Some(expression.is_match(text)),
        Err(_) => None,
    }
}

/// `text` is accepted as an address: it is not empty and matches [`HOST_PORT_PATTERN`].
pub open spec fn is_address(text: Seq<char>) -> bool {
    text.len() > 0 && pattern_found(HOST_PORT_PATTERN@, text) == Some(true)
}

/// Mathematical model of a [`ConnectModal`].
pub struct ModalModel {
    pub is_open: bool,
    pub buffer: Seq<char>,
}

impl ModalModel {
    /// A closed pop-up holds no text.
    pub open spec fn wf(self) -> bool {
        !self.is_open ==> self.buffer.len() == 0
    }

    /// The closed pop-up.
    pub open spec fn closed() -> ModalModel {
        ModalModel { is_open: false, buffer: Seq::empty() }
    }

    /// The pop-up after it is opened: the text stays.
    pub open spec fn open(self) -> ModalModel {
        ModalModel { is_open: true, buffer: self.buffer }
    }

    /// The pop-up after `ch` is typed: appended while open, ignored while closed.
    pub open spec fn input(self, ch: char) -> ModalModel {
        if self.is_open {
            ModalModel { is_open: true, buffer: self.buffer.push(ch) }
        } else {
            self
        }
    }

    /// The pop-up after backspace: the last character leaves, if there is one.
    pub open spec fn backspace(self) -> ModalModel {
        if self.is_open && self.buffer.len() > 0 {
            ModalModel { is_open: true, buffer: self.buffer.drop_last() }
        } else {
            self
        }
    }

    /// The text is sent off: the pop-up is open and the text was found valid.
    pub open spec fn accepts(self, valid: bool) -> bool {
        self.is_open && valid
    }

    /// The pop-up after enter, given whether its text is valid: closed and
    /// empty where the text is sent off, untouched where it is not.
    pub open spec fn submit(self, valid: bool) -> ModalModel {
        if self.accepts(valid) {
            ModalModel::closed()
        } else {
            self
        }
    }

    /// The address sent off on enter, given whether the text is valid.
    pub open spec fn submitted(self, valid: bool) -> Option<Seq<char>> {
        if self.accepts(valid) {
            Some(self.buffer)
        } else {
            None
        }
    }
}

/// Whether the pop-up is shown, and the text typed into it so far.
pub struct ConnectModal {
    is_open: bool,
    buffer: String,
}

impl View for ConnectModal {
    type V = ModalModel;

    closed spec fn view(&self) -> ModalModel {
        ModalModel { is_open: self.is_open, buffer: self.buffer@ }
    }
}

/// The view of an address that may have been sent off.
pub open spec fn submitted_view(address: Option<String>) -> Option<Seq<char>> {
    match address {
        Some(text) => Some(text@),
        None => None,
    }
}

impl ConnectModal {
    #[verifier::type_invariant]
    spec fn inv(self) -> bool {
        !self.is_open ==> self.buffer@.len() == 0
    }

    /// The closed pop-up.
    pub fn new() -> (modal: Self)
        ensures
            modal@ == ModalModel::closed(),
            modal@.wf(),
    {
        ConnectModal { is_open: false, buffer: String::new() }
    }

    /// Shows the pop-up.
    pub fn open(&mut self)
        ensures
            final(self)@ == old(self)@.open(),
            final(self)@.wf(),
    {
        self.is_open = true;
    }

    /// Appends `ch` to the text of an open pop-up.
    pub fn input(&mut self, ch: char)
        ensures
            final(self)@ == old(self)@.input(ch),
            final(self)@.wf(),
    {
        proof {
            use_type_invariant(&*self);
        }
        if self.is_open {
            let mut buffer = String::new();
            core::mem::swap(&mut self.buffer, &mut buffer);
            buffer.push(ch);
            self.buffer = buffer;
        }
    }

    /// Removes the last character of the text, if there is one.
    pub fn backspace(&mut self)
        ensures
            final(self)@ == old(self)@.backspace(),
            final(self)@.wf(),
    {
        proof {
            use_type_invariant(&*self);
        }
        if self.is_open {
            let mut buffer = String::new();
            core::mem::swap(&mut self.buffer, &mut buffer);
            let _ = buffer.pop();
            self.buffer = buffer;
        }
    }

    /// Drops the text and hides the pop-up.
    pub fn close(&mut self)
        ensures
            final(self)@ == ModalModel::closed(),
            final(self)@.wf(),
    {
        self.buffer = String::new();
        self.is_open = false;
    }

    /// Enter, with the verdict on the text given by the caller. A valid text
    /// is handed out and the pop-up closes empty; otherwise nothing changes.
    pub fn submit_checked(&mut self, valid: bool) -> (address: Option<String>)
        ensures
            final(self)@ == old(self)@.submit(valid),
            submitted_view(address) == old(self)@.submitted(valid),
            final(self)@.wf(),
    {
        proof {
            use_type_invariant(&*self);
        }
        if self.is_open && valid {
            let mut buffer = String::new();
            core::mem::swap(&mut self.buffer, &mut buffer);
            self.is_open = false;
            Some(buffer)
        } else {
            None
        }
    }

    /// Whether the text of the pop-up is an address.
    pub fn is_valid(&self) -> (valid: bool)
        ensures
            valid == is_address(self@.buffer),
    {
        if self.buffer.as_str().is_empty() {
            false
        } else {
            match find_pattern(HOST_PORT_PATTERN, self.buffer.as_str()) {
                Some(found) => found,
                None => false,
            }
        }
    }

    /// Enter. A text that is an address is handed out and the pop-up closes
    /// empty; any other text stays, with the pop-up open as before.
    pub fn submit(&mut self) -> (address: Option<String>)
        ensures
            final(self)@ == old(self)@.submit(is_address(old(self)@.buffer)),
            submitted_view(address) == old(self)@.submitted(is_address(old(self)@.buffer)),
            final(self)@.wf(),
    {
        let valid: bool = self.is_valid();
        self.submit_checked(valid)
    }

    /// Whether the pop-up is shown.
    pub fn is_open(&self) -> (is_open: bool)
        ensures
            is_open == self@.is_open,
    {
        self.is_open
    }

    /// The text typed so far.
    pub fn buffer(&self) -> (text: &str)
        ensures
            text@ == self@.buffer,
            !self@.is_open ==> text@.len() == 0,
    {
        proof {
            use_type_invariant(self);
        }
        self.buffer.as_str()
    }
}

} // verus!
