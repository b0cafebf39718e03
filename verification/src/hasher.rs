//! The structural hasher widgets feed their layout cache keys into.
//!
//! The framework decides whether a cached layout can be reused by comparing
//! what each widget wrote into this hasher across frames. The model keeps
//! the written values themselves, in order, so that contracts can say
//! exactly which fields a widget's key covers — and, as importantly, which
//! it does not.

use vstd::prelude::*;

verus! {

/// One value written into the hasher, as contracts see it.
pub enum HashKey {
    /// A machine word, such as a widget-kind discriminator.
    Word(u64),
    /// A run of text, such as a label.
    Text(Seq<char>),
}

/// One value written into the hasher, as it is stored.
#[derive(Debug, PartialEq, Eq)]
pub enum HashInput {
    Word(u64),
    Text(String),
}

impl View for HashInput {
    type V = HashKey;

    open spec fn view(&self) -> HashKey {
        match self {
            HashInput::Word(word) => HashKey::Word(*word),
            HashInput::Text(text) => HashKey::Text(text@),
        }
    }
}

/// Accumulates the values written by the widgets of one frame, in order.
/// Its view is the sequence of written values: two hashers agree exactly
/// when the same values were written in the same order.
pub struct Hasher {
    pub inputs: Vec<HashInput>,
}

impl View for Hasher {
    type V = Seq<HashKey>;

    open spec fn view(&self) -> Seq<HashKey> {
        self.inputs@.map_values(|input: HashInput| input@)
    }
}

impl Hasher {
    /// A hasher with nothing written yet.
    pub fn new() -> (r: Hasher)
        ensures
            r@ == Seq::<HashKey>::empty(),
    {
        let hasher = Hasher { inputs: Vec::new() };
        proof {
            assert(hasher@ =~= Seq::<HashKey>::empty());
        }
        hasher
    }

    /// Writes one machine word.
    pub fn write_u64(&mut self, value: u64)
        ensures
            final(self)@ == old(self)@.push(HashKey::Word(value)),
    {
        self.inputs.push(HashInput::Word(value));
        proof {
            assert(final(self)@ =~= old(self)@.push(HashKey::Word(value)));
        }
    }

    /// Writes one run of text.
    pub fn write_str(&mut self, value: &str)
        ensures
            final(self)@ == old(self)@.push(HashKey::Text(value@)),
    {
        self.inputs.push(HashInput::Text(String::from_str(value)));
        proof {
            assert(final(self)@ =~= old(self)@.push(HashKey::Text(value@)));
        }
    }
}

} // verus!
