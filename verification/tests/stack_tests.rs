use linear_containers::stack::Stack;

#[test]
fn test_push() {
    let mut stack = Stack::new();
    stack.push(10);
    stack.push(20);
    stack.push(30);

    // After pushing, the top element should be 30
    assert_eq!(stack.peek(), Some(&30));
    assert_eq!(stack.size(), 3)
}

#[test]
fn test_pop() {
    let mut stack = Stack::new();
    stack.push(10);
    stack.push(20);
    stack.push(30);

    assert_eq!(stack.pop(), Some(30));
    assert_eq!(stack.pop(), Some(20));
    assert_eq!(stack.pop(), Some(10));
    assert_eq!(stack.pop(), None);
    assert_eq!(stack.size(), 0)
}

#[test]
fn test_peek() {
    let mut stack = Stack::new();
    stack.push(5);
    stack.push(15);

    // Peek at the top element without removing it
    assert_eq!(stack.peek(), Some(&15));

    // Peek again to ensure it hasn't changed
    assert_eq!(stack.peek(), Some(&15));

    // Pop it and then check peek again
    stack.pop();
    assert_eq!(stack.peek(), Some(&5));
    assert_eq!(stack.size(), 1)
}

#[test]
fn test_empty_stack() {
    let mut stack: Stack<i32> = Stack::new();

    // Pop and peek on empty stack should return None
    assert_eq!(stack.peek(), None);
    assert_eq!(stack.pop(), None);
    assert!(stack.is_empty())
}

#[test]
fn stack_test_is_empty() {
    let mut stack: Stack<i32> = Stack::new();

    // Stack is empty when first created
    assert!(stack.is_empty());

    // Stack is not empty when element added
    stack.push(10);
    assert_eq!(stack.is_empty(), false);

    // Stack is empty when all elements are popped out
    stack.pop();
    assert!(stack.is_empty());
}

#[test]
fn test_with_capacity() {
    let stack: Stack<i32> = Stack::with_capacity(3);
    assert_eq!(stack.capacity(), 3)
}

#[test]
fn test_is_full() {
    let mut stack = Stack::with_capacity(1);

    stack.push(10);
    assert!(stack.is_full());
}

#[test]
fn capacity_boundary() {
    // A stack of capacity 3 accepts exactly 3 pushes; is_full flips
    // exactly when the size reaches the capacity.
    let mut stack = Stack::with_capacity(3);
    stack.push(1);
    assert!(!stack.is_full());
    stack.push(2);
    assert!(!stack.is_full());
    stack.push(3);
    assert!(stack.is_full());
    assert_eq!(stack.size(), 3);
    assert_eq!(stack.pop(), Some(3));
    assert!(!stack.is_full());
}

#[test]
fn zero_capacity_is_immediately_full() {
    let stack: Stack<i32> = Stack::with_capacity(0);
    assert!(stack.is_full());
    assert!(stack.is_empty());
    assert_eq!(stack.peek(), None);
}

#[test]
fn unbounded_stack_lifo_order() {
    // push(10), push(20), push(30): peek is 30, size is 3, and the pops
    // come back in the exact reverse of the push order.
    let mut stack = Stack::new();
    stack.push(10);
    stack.push(20);
    stack.push(30);
    assert_eq!(stack.peek(), Some(&30));
    assert_eq!(stack.size(), 3);
    assert_eq!(stack.pop(), Some(30));
    assert_eq!(stack.pop(), Some(20));
    assert_eq!(stack.pop(), Some(10));
    assert_eq!(stack.pop(), None);
}

#[test]
fn stack_of_strings() {
    let mut stack = Stack::new();
    stack.push(String::from("bottom"));
    stack.push(String::from("top"));
    assert_eq!(stack.pop(), Some(String::from("top")));
    assert_eq!(stack.pop(), Some(String::from("bottom")));
    assert_eq!(stack.pop(), None);
}
