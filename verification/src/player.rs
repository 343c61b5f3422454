//! A struct with one public and one private field, and its methods.

use vstd::prelude::*;

verus! {

/// A player with a public name and a rank kept private.
pub struct Player {
    pub name: String,
    rank: usize,
}

impl Player {
    /// The rank, visible to specifications.
    pub closed spec fn spec_rank(self) -> usize {
        self.rank
    }

    /// The name, visible to specifications.
    pub closed spec fn spec_name(self) -> String {
        self.name
    }

    /// A new player with the given name and the starting rank of one.
    pub fn new(name: &str) -> (p: Player)
        ensures
            p.spec_name()@ == name@,
            p.spec_rank() == 1,
    {
        Player { name: String::from(name), rank: 1 }
    }

    /// The private rank, read through an accessor.
    pub fn rank(&self) -> (r: usize)
        ensures
            r == self.spec_rank(),
    {
        self.rank
    }

    /// The byte length of the player's name.
    pub fn name_len(&self) -> (n: usize)
        ensures
            n == vstd::utf8::encode_utf8(self.spec_name()@).len() as usize,
    {
        self.name.as_str().len()
    }
}

/// A public field is read directly.
pub fn read_public_filed() {
    let player = Player::new("rust");
    let name = player.name;
    assert(name@ == "rust"@);
}

/// A private field is read through its accessor.
pub fn read_private_filed() {
    let player = Player::new("rust");
    let rank = player.rank();
    assert(rank == 1);
}

} // verus!
