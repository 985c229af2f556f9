//! The generator of index modules.
//!
//! An index module declares a handle type `Id` around one unsigned number,
//! and a `Generator` of fresh handles. Different kinds of indices get
//! different modules, so that the types keep them apart.

use crate::ast::{renders, GenError};
use vstd::prelude::*;
use vstd::string::StringExecFns;

verus! {

/// What opens an index module, before its name.
pub const INDEX_MODULE_OPEN: &'static str = "\npub mod ";

/// The body of an index module, after its name.
pub const INDEX_MODULE_BODY: &'static str = " {
    #[derive(std::fmt::Debug, std::clone::Clone, std::marker::Copy,
             std::hash::Hash, std::cmp::PartialEq, std::cmp::Eq,
             std::cmp::PartialOrd, std::cmp::Ord)]
    pub struct Id {
        index: usize,
    }

    #[derive(std::fmt::Debug, std::clone::Clone, std::marker::Copy)]
    pub struct Generator {
        counter: usize,
    }

    pub type Vector<T> = crate::id_vector::Vector<Id,T>;

    impl Id {
        pub fn new(init: usize) -> Id {
            Id { index: init }
        }
        
        pub fn is_zero(&self) -> bool {
            self.index == 0
        }

        pub fn incr(&mut self) {
            // Overflows are extremely unlikely, but we do want to make sure
            // we panick whenever there is one.
            self.index = self.index.checked_add(1).unwrap();
        }
    }

    pub static ZERO: Id = Id { index: 0 };
    pub static ONE: Id = Id { index: 1 };

    impl crate::id_vector::ToUsize for Id {
        fn to_usize(&self) -> usize {
            self.index
        }
    }

    impl crate::id_vector::Increment for Id {
        fn incr(&mut self) {
            self.incr();
        }
    }

    impl crate::id_vector::Zero for Id {
        fn zero() -> Self {
            Id::new(0)
        }
    }

    impl std::fmt::Display for Id {
        fn fmt(&self, f: &mut std::fmt::Formatter<'_>) ->
          std::result::Result<(), std::fmt::Error> {
            f.write_str(self.index.to_string().as_str())
        }
    }
    
    impl serde::Serialize for Id {
        fn serialize<S>(&self, serializer: S) -> std::result::Result<S::Ok, S::Error>
        where
            S: serde::Serializer,
        {
            // usize is not necessarily contained in u32
            assert!(self.index <= std::u32::MAX as usize);
            serializer.serialize_u32(self.index as u32)
        }
    }
 
    impl Generator {
        pub fn new() -> Generator {
            Generator { counter: 0 }
        }

        pub fn fresh_id(&mut self) -> Id {
            // The release version of the code doesn't check for overflows.
            // As the max usize is very large, overflows are extremely
            // unlikely. Still, it is extremely important for our code that
            // no overflows happen on the index counters.
            let index = Id::new(self.counter);
            self.counter = self.counter.checked_add(1).unwrap();
            index
        }
    }
}";

/// One token of the input of the generator, by its kind; an identifier
/// with its name.
#[derive(Debug)]
pub enum TokenTree {
    Group,
    Ident(String),
    Punct,
    Literal,
}

/// Whether the input is exactly one identifier.
pub open spec fn is_one_identifier(item: Seq<TokenTree>) -> bool {
    item.len() == 1 && item[0] is Ident
}

/// The failure that any other input gives.
pub open spec fn invocation_error(item: Seq<TokenTree>) -> Option<GenError> {
    if is_one_identifier(item) {
        None
    } else {
        Some(GenError::MalformedInvocation)
    }
}

/// The identifier that the input holds.
pub open spec fn module_name(item: Seq<TokenTree>) -> Seq<char>
    recommends
        is_one_identifier(item),
{
    match item[0] {
        TokenTree::Ident(name) => name@,
        _ => Seq::empty(),
    }
}

/// The text of the index module `name`.
pub open spec fn index_module_text(name: Seq<char>) -> Seq<char> {
    INDEX_MODULE_OPEN@ + name + INDEX_MODULE_BODY@
}

/// Generates an index module, named by the one identifier that the input
/// holds: a module with an index type and a generator of fresh indices.
/// Any other input is refused.
pub fn generate_index_type(item: &Vec<TokenTree>) -> (r: Result<String, GenError>)
    ensures
        renders(r, invocation_error(item@), index_module_text(module_name(item@))),
{
    if item.len() != 1 {
        return Err(GenError::MalformedInvocation);
    }
    match &item[0] {
        TokenTree::Ident(ident) => {
            let mut code = String::from_str(INDEX_MODULE_OPEN);
            code.append(ident.as_str());
            code.append(INDEX_MODULE_BODY);
            Ok(code)
        },
        _ => Err(GenError::MalformedInvocation),
    }
}

} // verus!
