//! GPU object names, and the commands a graphics context is asked to run.
//!
//! A name is what the context hands out when it is asked to generate an
//! object; zero is its way of saying that it could not. A command is one
//! call on the context, with everything that call needs. The caller runs
//! commands in the order in which it gets them.

use vstd::prelude::*;
use vstd::multiset::Multiset;
use crate::vertex::VertexAttribute;

verus! {

/// Binding point of a buffer object.
#[derive(Clone, Copy, Debug, PartialEq, Eq, Structural)]
pub enum BufferTarget {
    /// Vertex attribute data.
    Array,
    /// Triangle index data.
    ElementArray,
}

/// How the data of a buffer is expected to be used.
#[derive(Clone, Copy, Debug, PartialEq, Eq, Structural)]
pub enum BufferUsage {
    /// Written once, used a few times.
    StreamDraw,
    /// Written once, used many times.
    StaticDraw,
    /// Written and used many times.
    DynamicDraw,
}

/// One call on the graphics context.
#[derive(Debug)]
pub enum GlCommand {
    /// Make the named vertex array current; zero makes none current.
    BindVertexArray(u32),
    /// Bind the named buffer to a target; zero unbinds.
    BindBuffer(BufferTarget, u32),
    /// Replace the store of the buffer bound to the target with these bytes.
    BufferData(BufferTarget, Vec<u8>, BufferUsage),
    /// Describe one shader input of the current vertex array, fed from the
    /// buffer bound to the array target.
    VertexAttribPointer(VertexAttribute),
    /// Switch on one shader input of the current vertex array.
    EnableVertexAttribArray(u32),
    /// Draw a triangle list from this many 32-bit indices of the element
    /// buffer of the current vertex array, starting at its first.
    DrawTriangles(i32),
    /// Give the named vertex array back to the context.
    DeleteVertexArray(u32),
    /// Give the named buffer back to the context.
    DeleteBuffer(u32),
}

/// A command as a value: its bytes are a sequence.
pub enum Command {
    BindVertexArray(u32),
    BindBuffer(BufferTarget, u32),
    BufferData(BufferTarget, Seq<u8>, BufferUsage),
    VertexAttribPointer(VertexAttribute),
    EnableVertexAttribArray(u32),
    DrawTriangles(i32),
    DeleteVertexArray(u32),
    DeleteBuffer(u32),
}

impl DeepView for GlCommand {
    type V = Command;

    open spec fn deep_view(&self) -> Command {
        match *self {
            GlCommand::BindVertexArray(name) => Command::BindVertexArray(name),
            GlCommand::BindBuffer(target, name) => Command::BindBuffer(target, name),
            GlCommand::BufferData(target, data, usage) => Command::BufferData(target, data@, usage),
            GlCommand::VertexAttribPointer(attribute) => Command::VertexAttribPointer(attribute),
            GlCommand::EnableVertexAttribArray(slot) => Command::EnableVertexAttribArray(slot),
            GlCommand::DrawTriangles(count) => Command::DrawTriangles(count),
            GlCommand::DeleteVertexArray(name) => Command::DeleteVertexArray(name),
            GlCommand::DeleteBuffer(name) => Command::DeleteBuffer(name),
        }
    }
}

/// A live object of the context, by kind and name. Vertex arrays and
/// buffers are named independently of each other.
pub enum Resource {
    VertexArray(u32),
    Buffer(u32),
}

/// The objects that running `commands` gives back to the context, each as
/// often as it is given back.
pub open spec fn released(commands: Seq<Command>) -> Multiset<Resource>
    decreases commands.len(),
{
    if commands.len() == 0 {
        Multiset::empty()
    } else {
        let rest = released(commands.drop_last());
        match commands.last() {
            Command::DeleteVertexArray(name) => rest.insert(Resource::VertexArray(name)),
            Command::DeleteBuffer(name) => rest.insert(Resource::Buffer(name)),
            _ => rest,
        }
    }
}

/// Whether a command gives an object back to the context.
pub open spec fn is_delete(command: Command) -> bool {
    command is DeleteVertexArray || command is DeleteBuffer
}

/// What a plan gives back, one command at a time: a plan with one more
/// command gives back what the plan did, and the object that the command
/// deletes, if it deletes one.
pub proof fn lemma_released_push(commands: Seq<Command>, command: Command)
    ensures
        released(commands.push(command)) == match command {
            Command::DeleteVertexArray(name) => released(commands).insert(
                Resource::VertexArray(name),
            ),
            Command::DeleteBuffer(name) => released(commands).insert(Resource::Buffer(name)),
            _ => released(commands),
        },
{
    assert(commands.push(command).drop_last() =~= commands);
}

/// Two plans run one after the other give back what each gives back.
pub proof fn lemma_released_concat(first: Seq<Command>, second: Seq<Command>)
    ensures
        released(first + second) == released(first).add(released(second)),
    decreases second.len(),
{
    if second.len() == 0 {
        assert(first + second =~= first);
        assert(released(first).add(Multiset::empty()) =~= released(first));
    } else {
        let front = second.drop_last();
        lemma_released_concat(first, front);
        assert(first + second =~= (first + front).push(second.last()));
        lemma_released_push(first + front, second.last());
        assert(second =~= front.push(second.last()));
        lemma_released_push(front, second.last());
        assert(released(first + second) =~= released(first).add(released(second)));
    }
}

/// A plan without a delete gives nothing back.
pub proof fn lemma_released_nothing(commands: Seq<Command>)
    requires
        forall|k: int| 0 <= k < commands.len() ==> !is_delete(#[trigger] commands[k]),
    ensures
        released(commands) == Multiset::<Resource>::empty(),
    decreases commands.len(),
{
    if commands.len() > 0 {
        assert(!is_delete(commands[commands.len() - 1]));
        lemma_released_nothing(commands.drop_last());
    }
}

/// The vertex array that is current once `commands` have run on a context
/// in which `before` was current; zero stands for none. Binding makes the
/// named array current, and deleting the current array leaves none.
pub open spec fn vertex_array_after(commands: Seq<Command>, before: u32) -> u32
    decreases commands.len(),
{
    if commands.len() == 0 {
        before
    } else {
        let earlier = vertex_array_after(commands.drop_last(), before);
        match commands.last() {
            Command::BindVertexArray(name) => name,
            Command::DeleteVertexArray(name) => if name == earlier {
                0
            } else {
                earlier
            },
            _ => earlier,
        }
    }
}

/// The attributes that `commands` describe to the context, in the order in
/// which they describe them.
pub open spec fn configured_attributes(commands: Seq<Command>) -> Seq<VertexAttribute>
    decreases commands.len(),
{
    if commands.len() == 0 {
        Seq::empty()
    } else {
        let earlier = configured_attributes(commands.drop_last());
        match commands.last() {
            Command::VertexAttribPointer(attribute) => earlier.push(attribute),
            _ => earlier,
        }
    }
}

/// What a plan configures, one command at a time: a plan with one more
/// command configures what the plan did, and after it the attribute that
/// the command describes, if it describes one.
pub proof fn lemma_configured_push(commands: Seq<Command>, command: Command)
    ensures
        configured_attributes(commands.push(command)) == match command {
            Command::VertexAttribPointer(attribute) => configured_attributes(commands).push(
                attribute,
            ),
            _ => configured_attributes(commands),
        },
{
    assert(commands.push(command).drop_last() =~= commands);
}

/// Two plans run one after the other configure what the first configures
/// and then what the second configures.
pub proof fn lemma_configured_concat(first: Seq<Command>, second: Seq<Command>)
    ensures
        configured_attributes(first + second) == configured_attributes(first)
            + configured_attributes(second),
    decreases second.len(),
{
    if second.len() == 0 {
        assert(first + second =~= first);
        assert(configured_attributes(first) + Seq::<VertexAttribute>::empty()
            =~= configured_attributes(first));
    } else {
        let front = second.drop_last();
        lemma_configured_concat(first, front);
        assert(first + second =~= (first + front).push(second.last()));
        lemma_configured_push(first + front, second.last());
        assert(second =~= front.push(second.last()));
        lemma_configured_push(front, second.last());
        assert(configured_attributes(first + second) =~= configured_attributes(first)
            + configured_attributes(second));
    }
}

/// The name of a vertex array object.
#[derive(Clone, Copy, Debug, PartialEq, Eq, Structural)]
pub struct VertexArray(pub u32);

impl VertexArray {
    /// Accepts the name a context generated, unless the context signalled
    /// failure by handing out zero.
    pub fn new(name: u32) -> (array: Option<Self>)
        ensures
            name == 0 ==> array is None,
            name != 0 ==> array == Some(VertexArray(name)),
    {
        if name == 0 {
            None
        } else {
            Some(VertexArray(name))
        }
    }

    /// The command that makes this vertex array current.
    pub fn bind(&self) -> (command: GlCommand)
        ensures
            command.deep_view() == Command::BindVertexArray(self.0),
    {
        GlCommand::BindVertexArray(self.0)
    }

    /// The command after which no vertex array is current.
    pub fn unbind(&self) -> (command: GlCommand)
        ensures
            command.deep_view() == Command::BindVertexArray(0),
    {
        GlCommand::BindVertexArray(0)
    }
}

/// The name of a buffer object, the target it is bound to and the usage its
/// data is declared with.
#[derive(Clone, Copy, Debug, PartialEq, Eq, Structural)]
pub struct Buffer(pub u32, pub BufferTarget, pub BufferUsage);

impl Buffer {
    /// Accepts the name a context generated, unless the context signalled
    /// failure by handing out zero.
    pub fn new(usage: BufferUsage, target: BufferTarget, name: u32) -> (buffer: Option<Self>)
        ensures
            name == 0 ==> buffer is None,
            name != 0 ==> buffer == Some(Buffer(name, target, usage)),
    {
        if name == 0 {
            None
        } else {
            Some(Buffer(name, target, usage))
        }
    }

    /// The command that binds this buffer to its target.
    pub fn bind(&self) -> (command: GlCommand)
        ensures
            command.deep_view() == Command::BindBuffer(self.1, self.0),
    {
        GlCommand::BindBuffer(self.1, self.0)
    }

    /// The command after which no buffer is bound to this buffer's target.
    pub fn unbind(&self) -> (command: GlCommand)
        ensures
            command.deep_view() == Command::BindBuffer(self.1, 0),
    {
        GlCommand::BindBuffer(self.1, 0)
    }

    /// The command that fills the buffer bound to this buffer's target with
    /// `data`, under this buffer's usage.
    pub fn set_data(&self, data: Vec<u8>) -> (command: GlCommand)
        ensures
            command.deep_view() == Command::BufferData(self.1, data@, self.2),
    {
        GlCommand::BufferData(self.1, data, self.2)
    }
}

} // verus!
