//! The to-do list record and its two operations: creation and appending.
use vstd::prelude::*;
use crate::encoding::{byte_len, encoded_record_len, lemma_items_len_push, record_size, strings_view, LEN_PREFIX};

verus! {

/// The byte capacity that `create` gives every new list.
pub const CAPACITY_BYTES: usize = 264;

/// Why an operation on a list was refused. A refused operation changes nothing.
#[derive(Debug, Clone, Copy, PartialEq, Eq, Structural)]
pub enum TodoError {
    /// The item would push the list's encoded size past its capacity.
    CapacityExceeded,
    /// The name alone, with an empty list, does not fit in the capacity.
    AllocationTooSmall,
}

/// Mathematical model of a list: who created it, its name, its items in
/// order, and the byte capacity fixed at creation.
pub ghost struct ToDoListView {
    pub owner: Seq<u8>,
    pub name: Seq<char>,
    pub items: Seq<Seq<char>>,
    pub capacity: nat,
}

impl ToDoListView {
    /// A list just created: the given owner, name and capacity, and no items.
    pub open spec fn fresh(owner: Seq<u8>, name: Seq<char>, capacity: nat) -> ToDoListView {
        ToDoListView { owner, name, items: Seq::empty(), capacity }
    }

    /// Encoded size of the list's name and items.
    pub open spec fn size(self) -> nat {
        encoded_record_len(self.name, self.items)
    }

    pub open spec fn within_capacity(self) -> bool {
        self.size() <= self.capacity
    }

    /// Whether `item` can be appended without exceeding the capacity.
    pub open spec fn fits(self, item: Seq<char>) -> bool {
        encoded_record_len(self.name, self.items.push(item)) <= self.capacity
    }

    /// The same list with `item` added at the end.
    pub open spec fn with_item(self, item: Seq<char>) -> ToDoListView {
        ToDoListView { items: self.items.push(item), ..self }
    }

    /// The list after an attempt to append `item`: grown where it fits,
    /// unchanged where it does not.
    pub open spec fn append_step(self, item: Seq<char>) -> ToDoListView {
        if self.fits(item) {
            self.with_item(item)
        } else {
            self
        }
    }
}

/// A to-do list whose encoded name and items always fit in its capacity.
#[derive(Debug)]
pub struct ToDoList {
    owner: [u8; 32],
    user_name: String,
    tasks: Vec<String>,
    capacity: usize,
}

impl View for ToDoList {
    type V = ToDoListView;

    closed spec fn view(&self) -> ToDoListView {
        ToDoListView {
            owner: self.owner@,
            name: self.user_name@,
            items: strings_view(self.tasks@),
            capacity: self.capacity as nat,
        }
    }
}

impl ToDoList {
    #[verifier::type_invariant]
    closed spec fn fits_capacity(self) -> bool {
        encoded_record_len(self.user_name@, strings_view(self.tasks@)) <= self.capacity
    }

    /// Rebuilds a list from stored parts, checking that they fit `capacity`.
    pub fn from_parts(owner: [u8; 32], user_name: String, tasks: Vec<String>, capacity: usize) -> (r: Result<ToDoList, TodoError>)
        ensures
            r is Ok <==> encoded_record_len(user_name@, strings_view(tasks@)) <= capacity,
            r matches Ok(l) ==> l@ == (ToDoListView {
                owner: owner@,
                name: user_name@,
                items: strings_view(tasks@),
                capacity: capacity as nat,
            }),
            r matches Err(e) ==> e == (if encoded_record_len(user_name@, Seq::empty()) <= capacity {
                TodoError::CapacityExceeded
            } else {
                TodoError::AllocationTooSmall
            }),
    {
        match record_size(&user_name, &tasks, capacity) {
            Some(_) => Ok(ToDoList { owner, user_name, tasks, capacity }),
            None => {
                let empty: Vec<String> = Vec::new();
                proof {
                    assert(strings_view(empty@) =~= Seq::<Seq<char>>::empty());
                }
                match record_size(&user_name, &empty, capacity) {
                    Some(_) => Err(TodoError::CapacityExceeded),
                    None => Err(TodoError::AllocationTooSmall),
                }
            },
        }
    }

    pub fn owner(&self) -> (r: [u8; 32])
        ensures
            r@ == self@.owner,
    {
        self.owner
    }

    pub fn user_name(&self) -> (r: &String)
        ensures
            r@ == self@.name,
    {
        &self.user_name
    }

    pub fn tasks(&self) -> (r: &Vec<String>)
        ensures
            strings_view(r@) == self@.items,
    {
        &self.tasks
    }

    pub fn capacity_bytes(&self) -> (r: usize)
        ensures
            r as nat == self@.capacity,
    {
        self.capacity
    }

    /// The encoded size of the list's name and items, which never exceeds its capacity.
    pub fn serialized_size(&self) -> (r: usize)
        ensures
            r as nat == self@.size(),
            self@.within_capacity(),
    {
        proof {
            use_type_invariant(self);
        }
        match record_size(&self.user_name, &self.tasks, self.capacity) {
            Some(n) => n,
            None => 0,
        }
    }
}

/// Creates a list of capacity `capacity` owned by `owner`, named `user_name`,
/// with no items; refused when the name does not fit.
pub fn create_with_capacity(owner: [u8; 32], user_name: String, capacity: usize) -> (r: Result<ToDoList, TodoError>)
    ensures
        r is Ok <==> encoded_record_len(user_name@, Seq::empty()) <= capacity,
        r matches Ok(l) ==> l@ == ToDoListView::fresh(owner@, user_name@, capacity as nat)
            && l@.within_capacity(),
        r matches Err(e) ==> e == TodoError::AllocationTooSmall,
{
    let tasks: Vec<String> = Vec::new();
    proof {
        assert(strings_view(tasks@) =~= Seq::<Seq<char>>::empty());
    }
    ToDoList::from_parts(owner, user_name, tasks, capacity)
}

/// Creates a list of `CAPACITY_BYTES` bytes owned by `owner`, named
/// `user_name`, with no items; refused when the name does not fit.
pub fn create(owner: [u8; 32], user_name: String) -> (r: Result<ToDoList, TodoError>)
    ensures
        r is Ok <==> encoded_record_len(user_name@, Seq::empty()) <= CAPACITY_BYTES,
        r matches Ok(l) ==> l@ == ToDoListView::fresh(owner@, user_name@, CAPACITY_BYTES as nat)
            && l@.within_capacity(),
        r matches Err(e) ==> e == TodoError::AllocationTooSmall,
{
    create_with_capacity(owner, user_name, CAPACITY_BYTES)
}

/// Appends `task_item` to the end of the list if the list still fits its
/// capacity afterwards; otherwise leaves the list as it was.
pub fn new_task(todo_list: &mut ToDoList, task_item: String) -> (r: Result<(), TodoError>)
    ensures
        r is Ok <==> old(todo_list)@.fits(task_item@),
        final(todo_list)@ == old(todo_list)@.append_step(task_item@),
        final(todo_list)@.within_capacity(),
        r matches Err(e) ==> e == TodoError::CapacityExceeded,
{
    proof {
        use_type_invariant(&*todo_list);
        lemma_items_len_push(todo_list@.items, task_item@);
    }
    let used: usize = todo_list.serialized_size();
    let m: usize = byte_len(&task_item);
    let room: usize = todo_list.capacity - used;
    if m > room || room - m < LEN_PREFIX {
        return Err(TodoError::CapacityExceeded);
    }
    let mut tasks: Vec<String> = Vec::new();
    proof {
        assert(strings_view(tasks@) =~= Seq::<Seq<char>>::empty());
        lemma_items_len_push(Seq::empty(), task_item@);
    }
    std::mem::swap(&mut tasks, &mut todo_list.tasks);
    tasks.push(task_item);
    proof {
        assert(strings_view(tasks@) =~= old(todo_list)@.items.push(task_item@));
    }
    std::mem::swap(&mut tasks, &mut todo_list.tasks);
    Ok(())
}

} // verus!
