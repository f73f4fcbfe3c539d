use vstd::prelude::*;

verus! {

/// Brings the objects of an effect to `target_count` after its count
/// setting changed: missing objects are appended, each made by `make`
/// from its index, and surplus objects are dropped from the end. The
/// objects that stay are left as they are.
pub fn sync_object_count<T, F: Fn(usize) -> T>(objects: &mut Vec<T>, target_count: usize, make: F)
    requires
        forall|i: usize| old(objects)@.len() <= i < target_count ==> call_requires(make, (i,)),
    ensures
        final(objects)@.len() == target_count,
        forall|i: int|
            0 <= i < target_count && i < old(objects)@.len() ==> #[trigger] final(objects)@[i] == old(objects)@[i],
        forall|i: int|
            old(objects)@.len() <= i < target_count ==> call_ensures(make, (i as usize,), #[trigger] final(objects)@[i]),
{
    let current_count = objects.len();
    if target_count > current_count {
        let mut index = current_count;
        while index < target_count
            invariant
                current_count == old(objects)@.len(),
                current_count <= index <= target_count,
                objects@.len() == index,
                forall|i: usize| current_count <= i < target_count ==> call_requires(make, (i,)),
                forall|i: int| 0 <= i < current_count ==> #[trigger] objects@[i] == old(objects)@[i],
                forall|i: int| current_count <= i < index ==> call_ensures(make, (i as usize,), #[trigger] objects@[i]),
            decreases target_count - index,
        {
            let obj = make(index);
            objects.push(obj);
            index = index + 1;
        }
    } else if target_count < current_count {
        objects.truncate(target_count);
    }
}

} // verus!
