//! Mediator: users talk through a chat room, which carries each message
//! to every registered user except the sender.

use vstd::prelude::*;

verus! {

/// A participant, known to the room by name.
pub struct User {
    pub name: String,
}

/// The line a user named `name` sees when `from` sends `message`.
pub open spec fn receive_line(name: Seq<char>, message: Seq<char>, from: Seq<char>) -> Seq<
    char,
> {
    name + " получает от "@ + from + ": "@ + message
}

/// The lines delivered for one message: one per user whose name differs
/// from the sender's, in registration order.
pub open spec fn delivery_lines(
    users: Seq<User>,
    message: Seq<char>,
    from: Seq<char>,
) -> Seq<Seq<char>>
    decreases users.len(),
{
    if users.len() == 0 {
        Seq::empty()
    } else {
        let tail = delivery_lines(users.skip(1), message, from);
        if users[0].name@ == from {
            tail
        } else {
            seq![receive_line(users[0].name@, message, from)] + tail
        }
    }
}

/// A mediator: carries a message from a sender to the other users.
pub trait Mediator {
    /// The lines its delivery would produce.
    spec fn spec_deliveries(&self, message: Seq<char>, from: Seq<char>) -> Seq<Seq<char>>;

    /// Delivers `message` from the named sender, returning the lines the
    /// recipients see.
    fn send_message(&self, message: &str, user: &User) -> (lines: Vec<String>)
        ensures
            lines@.map_values(|s: String| s@) == self.spec_deliveries(message@, user.name@),
    ;
}

impl User {
    pub fn new(name: &str) -> (u: User)
        ensures
            u.name@ == name@,
    {
        User { name: name.to_owned() }
    }

    pub fn get_name(&self) -> (r: &str)
        ensures
            r@ == self.name@,
    {
        self.name.as_str()
    }

    /// What this user sees when `from` sends `message`.
    pub fn receive(&self, message: &str, from: &str) -> (r: String)
        ensures
            r@ == receive_line(self.name@, message@, from@),
    {
        let mut s = self.name.clone();
        s.append(" получает от ");
        s.append(from);
        s.append(": ");
        s.append(message);
        s
    }

    /// Sends `message` through the mediator, returning the delivered
    /// lines.
    pub fn send<M: Mediator>(&self, mediator: &M, message: &str) -> (lines: Vec<String>)
        ensures
            lines@.map_values(|s: String| s@) == mediator.spec_deliveries(message@, self.name@),
    {
        mediator.send_message(message, self)
    }
}

/// A chat room holding its users by value.
pub struct ChatRoom {
    pub users: Vec<User>,
}

impl ChatRoom {
    pub fn new() -> (room: ChatRoom)
        ensures
            room.users@ == Seq::<User>::empty(),
    {
        ChatRoom { users: Vec::new() }
    }

    /// Registers a user with the room.
    pub fn add_user(&mut self, user: User)
        ensures
            final(self).users@ == old(self).users@.push(user),
    {
        self.users.push(user);
    }
}

/// Carrying one more user's line appends it to the deliveries so far.
proof fn lemma_delivery_lines_snoc(users: Seq<User>, message: Seq<char>, from: Seq<char>, i: int)
    requires
        0 <= i < users.len(),
    ensures
        delivery_lines(users.take(i + 1), message, from) == if users[i].name@ == from {
            delivery_lines(users.take(i), message, from)
        } else {
            delivery_lines(users.take(i), message, from).push(
                receive_line(users[i].name@, message, from),
            )
        },
    decreases i,
{
    let head = users.take(i + 1)[0];
    assert(head == users[0]);
    if i == 0 {
        assert(users.take(1).skip(1) =~= Seq::<User>::empty());
        assert(users.take(0) =~= Seq::<User>::empty());
        if users[0].name@ != from {
            assert(seq![receive_line(users[0].name@, message, from)] + Seq::<Seq<char>>::empty()
                =~= Seq::<Seq<char>>::empty().push(receive_line(users[0].name@, message, from)));
        }
    } else {
        assert(users.take(i + 1).skip(1) =~= users.skip(1).take(i));
        assert(users.take(i).skip(1) =~= users.skip(1).take(i - 1));
        assert(users.take(i)[0] == users[0]);
        lemma_delivery_lines_snoc(users.skip(1), message, from, i - 1);
        assert(users.skip(1)[i - 1] == users[i]);
        if users[i].name@ != from {
            let line = receive_line(users[i].name@, message, from);
            let prefix = delivery_lines(users.skip(1).take(i - 1), message, from);
            if users[0].name@ == from {
                assert(delivery_lines(users.take(i + 1), message, from) == prefix.push(line));
            } else {
                let first = seq![receive_line(users[0].name@, message, from)];
                assert(first + prefix.push(line) =~= (first + prefix).push(line));
            }
        }
    }
}

fn deliver_to_all(users: &Vec<User>, message: &str, from: &str) -> (lines: Vec<String>)
    ensures
        lines@.map_values(|s: String| s@) == delivery_lines(users@, message@, from@),
{
    let mut lines: Vec<String> = Vec::new();
    let mut i: usize = 0;
    while i < users.len()
        invariant
            i <= users.len(),
            lines@.map_values(|s: String| s@) == delivery_lines(
                users@.take(i as int),
                message@,
                from@,
            ),
        decreases users.len() - i,
    {
        proof {
            lemma_delivery_lines_snoc(users@, message@, from@, i as int);
        }
        let u = &users[i];
        if !crate::textutil::str_eq(u.get_name(), from) {
            let line = u.receive(message, from);
            let ghost prev = lines@;
            lines.push(line);
            proof {
                assert(lines@.map_values(|s: String| s@) =~= prev.map_values(|s: String| s@).push(
                    line@,
                ));
            }
        }
        i += 1;
    }
    proof {
        assert(users@.take(users@.len() as int) =~= users@);
    }
    lines
}

impl Mediator for ChatRoom {
    open spec fn spec_deliveries(&self, message: Seq<char>, from: Seq<char>) -> Seq<Seq<char>> {
        delivery_lines(self.users@, message, from)
    }

    fn send_message(&self, message: &str, user: &User) -> (lines: Vec<String>) {
        deliver_to_all(&self.users, message, user.get_name())
    }
}

/// A second room over the same delivery rule, kept for symmetry with the
/// pattern's usual pair of room types.
pub struct ChatRoomRef {
    pub users: Vec<User>,
}

impl ChatRoomRef {
    pub fn new() -> (room: ChatRoomRef)
        ensures
            room.users@ == Seq::<User>::empty(),
    {
        ChatRoomRef { users: Vec::new() }
    }

    /// Registers a user with the room.
    pub fn add_user(&mut self, user: User)
        ensures
            final(self).users@ == old(self).users@.push(user),
    {
        self.users.push(user);
    }
}

impl Mediator for ChatRoomRef {
    open spec fn spec_deliveries(&self, message: Seq<char>, from: Seq<char>) -> Seq<Seq<char>> {
        delivery_lines(self.users@, message, from)
    }

    fn send_message(&self, message: &str, user: &User) -> (lines: Vec<String>) {
        deliver_to_all(&self.users, message, user.get_name())
    }
}

} // verus!
