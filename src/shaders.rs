use vstd::prelude::*;
use vstd::string::*;

use crate::operation::{op_key, Operation};

verus! {

/// The position of the last `'.'` in `name`, if there is one.
pub open spec fn last_dot(name: Seq<char>) -> Option<int>
    decreases name.len(),
{
    if name.len() == 0 {
        None
    } else if name.last() == '.' {
        Some(name.len() - 1)
    } else {
        last_dot(name.drop_last())
    }
}

/// A file name with its extension stripped: everything before the last `'.'`,
/// or the whole name where it has none.
pub open spec fn file_stem(name: Seq<char>) -> Seq<char> {
    match last_dot(name) {
        Some(k) => name.subrange(0, k),
        None => name,
    }
}

/// The key under which a shader file is registered: its name without extension.
pub fn shader_key(file_name: &str) -> (r: String)
    ensures
        r@ == file_stem(file_name@),
{
    let n = file_name.unicode_len();
    let mut i: usize = n;
    assert(file_name@.subrange(0, n as int) =~= file_name@);
    while i > 0 && file_name.get_char(i - 1) != '.'
        invariant
            i <= n == file_name@.len(),
            last_dot(file_name@) == last_dot(file_name@.subrange(0, i as int)),
        decreases i,
    {
        let ghost prefix = file_name@.subrange(0, i as int);
        assert(prefix.drop_last() =~= file_name@.subrange(0, i - 1));
        i = i - 1;
    }
    if i == 0 {
        assert(file_name@.subrange(0, 0) =~= Seq::<char>::empty());
        String::from_str(file_name)
    } else {
        let ghost prefix = file_name@.subrange(0, i as int);
        assert(prefix.last() == '.');
        String::from_str(file_name.substring_char(0, i - 1))
    }
}

/// Whether two strings hold the same characters.
fn same_text(a: &str, b: &str) -> (r: bool)
    ensures
        r == (a@ == b@),
{
    let n = a.unicode_len();
    if n != b.unicode_len() {
        return false;
    }
    let mut i: usize = 0;
    while i < n
        invariant
            n == a@.len() == b@.len(),
            i <= n,
            a@.subrange(0, i as int) == b@.subrange(0, i as int),
        decreases n - i,
    {
        if a.get_char(i) != b.get_char(i) {
            return false;
        }
        assert(a@.subrange(0, i + 1) =~= a@.subrange(0, i as int).push(a@[i as int]));
        assert(b@.subrange(0, i + 1) =~= b@.subrange(0, i as int).push(b@[i as int]));
        i = i + 1;
    }
    assert(a@ =~= a@.subrange(0, n as int));
    assert(b@ =~= b@.subrange(0, n as int));
    true
}

impl Operation {
    /// The operation whose registry key is `key`, if any.
    pub fn from_key(key: &str) -> (r: Option<Operation>)
        ensures
            r matches Some(op) ==> op_key(op) == key@,
            r is None ==> forall|op: Operation| op_key(op) != key@,
    {
        if same_text(key, crate::operation::decode_operation(Operation::DOUBLE)) {
            Some(Operation::DOUBLE)
        } else if same_text(key, crate::operation::decode_operation(Operation::ADD)) {
            Some(Operation::ADD)
        } else if same_text(key, crate::operation::decode_operation(Operation::SUBTRACT)) {
            Some(Operation::SUBTRACT)
        } else if same_text(key, crate::operation::decode_operation(Operation::MULTIPLY)) {
            Some(Operation::MULTIPLY)
        } else if same_text(key, crate::operation::decode_operation(Operation::DIVIDE)) {
            Some(Operation::DIVIDE)
        } else {
            assert forall|op: Operation| op_key(op) != key@ by {
                match op {
                    Operation::DOUBLE => {},
                    Operation::ADD => {},
                    Operation::SUBTRACT => {},
                    Operation::MULTIPLY => {},
                    Operation::DIVIDE => {},
                }
            }
            None
        }
    }
}

/// The compiled shader modules of the engine, one slot per operation. The
/// registry is filled once, when the engine starts, and only read after that.
pub struct ShaderRegistry<M> {
    double: Option<M>,
    add: Option<M>,
    subtract: Option<M>,
    multiply: Option<M>,
    divide: Option<M>,
}

/// The registry after registering each `(file name, module)` pair of `files`
/// in turn, starting from `start`: a later file for an operation replaces an
/// earlier one, and a file whose stem is no operation's key is left out.
pub open spec fn registered_after<M>(start: Option<M>, op: Operation, files: Seq<(Seq<char>, M)>) -> Option<M>
    decreases files.len(),
{
    if files.len() == 0 {
        start
    } else {
        let last = files.last();
        if file_stem(last.0) == op_key(op) {
            Some(last.1)
        } else {
            registered_after(start, op, files.drop_last())
        }
    }
}

impl<M> ShaderRegistry<M> {
    /// The module registered for `op`, if any.
    pub closed spec fn slot(&self, op: Operation) -> Option<M> {
        match op {
            Operation::DOUBLE => self.double,
            Operation::ADD => self.add,
            Operation::SUBTRACT => self.subtract,
            Operation::MULTIPLY => self.multiply,
            Operation::DIVIDE => self.divide,
        }
    }

    /// A registry that holds no module.
    pub fn new() -> (r: Self)
        ensures
            forall|op: Operation| r.slot(op) is None,
    {
        ShaderRegistry { double: None, add: None, subtract: None, multiply: None, divide: None }
    }

    /// Registers `module`, compiled from the file `file_name`, under the file's
    /// stem. Returns whether the stem is the key of an operation; where it is
    /// not, the registry is left as it was.
    pub fn register(&mut self, file_name: &str, module: M) -> (r: bool)
        ensures
            r == exists|op: Operation| op_key(op) == file_stem(file_name@),
            forall|op: Operation|
                #[trigger] final(self).slot(op) == if op_key(op) == file_stem(file_name@) {
                    Some(module)
                } else {
                    old(self).slot(op)
                },
    {
        let key = shader_key(file_name);
        match Operation::from_key(key.as_str()) {
            Some(op) => {
                match op {
                    Operation::DOUBLE => self.double = Some(module),
                    Operation::ADD => self.add = Some(module),
                    Operation::SUBTRACT => self.subtract = Some(module),
                    Operation::MULTIPLY => self.multiply = Some(module),
                    Operation::DIVIDE => self.divide = Some(module),
                }
                true
            },
            None => false,
        }
    }

    /// The registry of the modules compiled from a directory's files, given
    /// as `(file name, module)` pairs in the order in which they were found.
    pub fn from_modules(files: Vec<(String, M)>) -> (r: Self)
        ensures
            forall|op: Operation|
                #[trigger] r.slot(op) == registered_after(
                    None,
                    op,
                    files@.map_values(|f: (String, M)| (f.0@, f.1)),
                ),
    {
        let ghost all = files@.map_values(|f: (String, M)| (f.0@, f.1));
        let mut rest = files;
        let mut registry = ShaderRegistry::new();
        let ghost n = rest@.len();
        while rest.len() > 0
            invariant
                all.len() == n,
                rest@.len() <= n,
                forall|j: int|
                    0 <= j < rest@.len() ==> all[n - rest@.len() + j] == (
                        #[trigger] rest@[j].0@,
                        rest@[j].1,
                    ),
                forall|op: Operation|
                    #[trigger] registry.slot(op) == registered_after(
                        None,
                        op,
                        all.take(n - rest@.len()),
                    ),
            decreases rest@.len(),
        {
            let ghost done = n - rest@.len();
            let (name, module) = rest.remove(0);
            assert(all[done] == (name@, module));
            registry.register(name.as_str(), module);
            assert(all.take(done + 1).drop_last() =~= all.take(done));
        }
        assert(all.take(n as int) =~= all);
        registry
    }

    /// The module registered for `op`, if any.
    pub fn module(&self, op: Operation) -> (r: Option<&M>)
        ensures
            r == match self.slot(op) {
                Some(m) => Some(&m),
                None => None::<&M>,
            },
    {
        match op {
            Operation::DOUBLE => self.double.as_ref(),
            Operation::ADD => self.add.as_ref(),
            Operation::SUBTRACT => self.subtract.as_ref(),
            Operation::MULTIPLY => self.multiply.as_ref(),
            Operation::DIVIDE => self.divide.as_ref(),
        }
    }
}

} // verus!
