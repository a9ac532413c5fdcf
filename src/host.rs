use vstd::prelude::*;

verus! {

/// The host capability surface offered to a guest beyond baseline system
/// access: `log(message)`. Each instance belongs to one execution context and
/// keeps, in order, the messages the guest has logged through it.
pub struct HostComponent {
    messages: Vec<String>,
}

impl View for HostComponent {
    type V = Seq<Seq<char>>;

    closed spec fn view(&self) -> Seq<Seq<char>> {
        self.messages@.map_values(|m: String| m@)
    }
}

impl HostComponent {
    /// A fresh capability instance that has received nothing.
    pub fn new() -> (r: HostComponent)
        ensures
            r@ == Seq::<Seq<char>>::empty(),
    {
        HostComponent { messages: Vec::new() }
    }

    /// The guest-callable `log`: records the message; nothing goes back to the guest.
    pub fn log(&mut self, message: String)
        ensures
            final(self)@ == old(self)@.push(message@),
    {
        self.messages.push(message);
        assert(self@ =~= old(self)@.push(message@));
    }

    /// How many messages the guest has logged.
    pub fn len(&self) -> (r: usize)
        ensures
            r == self@.len(),
    {
        self.messages.len()
    }

    /// The message logged at position `i`.
    pub fn message(&self, i: usize) -> (r: &str)
        requires
            i < self@.len(),
        ensures
            r@ == self@[i as int],
    {
        self.messages[i].as_str()
    }
}

} // verus!
