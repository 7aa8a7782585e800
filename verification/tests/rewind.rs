use std::cell::RefCell;
use std::rc::Rc;

use rewind::atom::{Owning, Simple};
use rewind::stack::{Stack, StackAtom, StackedAtom};

#[test]
fn simple_undo_does_not_cause_ub_on_drop() {
    Simple::new(vec!["test"], |c| c).undo();
}

#[test]
fn owned_undo_does_not_cause_ub_on_drop() {
    Owning::new(vec!["test"], |c| c).undo();
}

#[test]
fn cancelling_atom_stops_it_running_on_drop() {
    let mut scoped = 12;
    {
        let atom = Simple::new(&mut scoped, |s| {
            *s = 13;
        });
        atom.decay();
    }
    assert_eq!(scoped, 12);
}

#[test]
fn encasing_cannot_leak_abstraction_and_cause_panic_due_to_multiple_borrows() {
    let mut items = rewind::encase(vec![1, 2, 3]);
    let _b1 = items.peel_mut(|i| i.push(4), |i, _| i.pop());
    let _b2 = items.peel_mut(|i| i.push(5), |i, _| i.pop());
}

#[test]
fn peeling_mutably_allows_reversing_a_mutable_operation() {
    let mut items = rewind::encase(vec![1, 2, 3]);
    let v = items.peel_mut(
        |i| i.pop(),
        |i, v| {
            if let Some(v) = v {
                i.push(v);
            }
        },
    );
    assert_eq!(*v.get(), Some(3));
    assert_eq!(items.get().len(), 2);
    v.undo(&mut items);
    assert_eq!(items.get().len(), 3);
}

#[test]
fn simple_undo_returns_the_compensations_result() {
    let v = rewind::simple(4, |v| v + 2);
    assert_eq!(v.undo(), 6);
}

#[test]
fn simple_decay_returns_the_original_value() {
    let v = rewind::simple(4, |v| v + 2);
    assert_eq!(v.decay(), 4);
}

#[test]
fn simple_undo_equals_calling_the_compensation_directly() {
    let effect = Rc::new(RefCell::new(Vec::new()));
    let via_atom = {
        let log = effect.clone();
        rewind::simple(7, move |v| {
            log.borrow_mut().push(v);
            v * 2
        })
        .undo()
    };
    let direct = {
        let log = effect.clone();
        (move |v: i32| {
            log.borrow_mut().push(v);
            v * 2
        })(7)
    };
    assert_eq!(via_atom, direct);
    assert_eq!(*effect.borrow(), vec![7, 7]);
}

#[test]
fn simple_decay_leaves_external_state_untouched() {
    let effect = Rc::new(RefCell::new(Vec::new()));
    let log = effect.clone();
    let atom = rewind::simple(7, move |v: i32| {
        log.borrow_mut().push(v);
    });
    let got = atom.decay();
    assert_eq!(got, 7);
    assert!(effect.borrow().is_empty());
}

#[test]
fn own_keeps_a_live_copy_and_undo_restores_the_snapshot() {
    let mut items = rewind::own(vec![1, 2, 3], rewind::id);
    items.get_mut().clear();
    assert_eq!(items.get().len(), 0);
    let items = items.undo();
    assert_eq!(items.len(), 3);
}

#[test]
fn owning_cancel_returns_the_unmodified_snapshot() {
    let mut items = rewind::own(vec!["a", "b"], rewind::id);
    items.get_mut().push("c");
    let got = items.decay();
    assert_eq!(got, vec!["a", "b"]);
}

#[test]
fn owning_into_inner_returns_the_live_modified_copy() {
    let mut items = rewind::own(vec!["a", "b"], rewind::id);
    items.get_mut().push("c");
    let got = items.into_inner();
    assert_eq!(got, vec!["a", "b", "c"]);
}

#[test]
fn pop_compensated_by_push_restores_the_container() {
    let mut items = rewind::encase(vec![1, 2, 3]);
    let eff = items.peel_mut(
        |i| i.pop(),
        |i, v| {
            if let Some(v) = v {
                i.push(v);
            }
        },
    );
    assert_eq!(*eff.get(), Some(3));
    eff.undo(&mut items);
    assert_eq!(*items.get(), vec![1, 2, 3]);
}

#[test]
fn chained_pops_are_undone_independently() {
    let mut items = rewind::encase(vec![1, 2, 3]);
    let first = items.peel_mut(
        |i| i.pop(),
        |i, v| {
            if let Some(v) = v {
                i.push(v);
            }
        },
    );
    assert_eq!(*first.get(), Some(3));
    let second = first.peel_mut(
        &mut items,
        |i| i.pop(),
        |i, v| {
            if let Some(v) = v {
                i.push(v);
            }
        },
    );
    assert_eq!(*second.get(), Some(2));
    second.undo(&mut items);
    assert_eq!(*items.get(), vec![1, 2]);
    let _ = first.decay();
}

#[test]
fn side_effect_decay_hands_out_the_value_and_leaves_the_resource() {
    let mut items = rewind::encase(vec![1, 2, 3]);
    let eff = items.peel_mut(
        |i| i.pop(),
        |i, v| {
            if let Some(v) = v {
                i.push(v);
            }
        },
    );
    let got = eff.decay();
    assert_eq!(got, Some(3));
    assert_eq!(*items.get(), vec![1, 2]);
}

#[test]
fn encased_get_mut_gives_direct_access() {
    let mut e = rewind::encase(10u64);
    *e.get_mut() = 25;
    assert_eq!(*e.get(), 25);
}

#[test]
fn two_inverse_ops_round_trip_exactly() {
    let mut e = rewind::encase(100u64);
    let e1 = e.peel_mut(|s| *s += 1, |s: &mut u64, _| *s -= 1);
    let e2 = e1.peel_mut(&mut e, |s| *s += 10, |s: &mut u64, _| *s -= 10);
    assert_eq!(*e.get(), 111);
    e2.undo(&mut e);
    e1.undo(&mut e);
    assert_eq!(*e.get(), 100);
}

#[test]
fn id_returns_its_argument() {
    assert_eq!(rewind::id(5), 5);
}

fn logging_unit(
    tag: i32,
    log: Rc<RefCell<Vec<i32>>>,
) -> Simple<(i32, Rc<RefCell<Vec<i32>>>), (), impl FnOnce((i32, Rc<RefCell<Vec<i32>>>))> {
    Simple::new((tag, log), |(tag, log)| {
        log.borrow_mut().push(tag);
    })
}

#[test]
fn stack_undo_fires_in_reverse_push_order() {
    let log = Rc::new(RefCell::new(Vec::new()));
    let mut stack = Stack::new();
    stack.push(logging_unit(1, log.clone()));
    stack.push(logging_unit(2, log.clone()));
    stack.push(logging_unit(3, log.clone()));
    let results = stack.undo();
    assert_eq!(results.len(), 3);
    assert_eq!(*log.borrow(), vec![3, 2, 1]);
}

#[test]
fn stack_decay_fires_nothing_and_returns_the_values() {
    let log = Rc::new(RefCell::new(Vec::new()));
    let mut stack = Stack::new();
    stack.push(logging_unit(1, log.clone()));
    stack.push(logging_unit(2, log.clone()));
    let results = stack.decay();
    assert_eq!(results.len(), 2);
    assert_eq!(results[0].0, 2);
    assert_eq!(results[1].0, 1);
    assert!(log.borrow().is_empty());
}

#[test]
fn stack_pop_hands_the_last_unit_back_without_firing() {
    let log = Rc::new(RefCell::new(Vec::new()));
    let mut stack = Stack::new();
    stack.push(logging_unit(1, log.clone()));
    stack.push(logging_unit(2, log.clone()));
    let unit = stack.pop().unwrap();
    assert!(log.borrow().is_empty());
    unit.undo();
    assert_eq!(*log.borrow(), vec![2]);
    let rest = stack.undo();
    assert_eq!(rest.len(), 1);
    assert_eq!(*log.borrow(), vec![2, 1]);
}

#[test]
fn stack_atom_discards_the_result_but_still_fires() {
    let log = Rc::new(RefCell::new(Vec::new()));
    let erased = StackAtom::new(logging_unit(9, log.clone()));
    let mut stack = Stack::new();
    stack.push(erased);
    let results = stack.undo();
    assert_eq!(results, vec![()]);
    assert_eq!(*log.borrow(), vec![9]);
}

#[test]
fn chain_builds_a_two_unit_stack_that_unwinds_in_reverse() {
    let log = Rc::new(RefCell::new(Vec::new()));
    let u1 = logging_unit(1, log.clone());
    let u2 = logging_unit(2, log.clone());
    let stack = u1.chain(u2);
    let results = stack.undo();
    assert_eq!(results.len(), 2);
    assert_eq!(*log.borrow(), vec![2, 1]);
}
