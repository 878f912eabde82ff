use fast_floats::Fast;

#[test]
fn each_op() {
    assert_eq!(Fast::new(2.) + Fast::new(1.), Fast::new(2. + 1.));
    assert_eq!(Fast::new(2.) - Fast::new(1.), Fast::new(2. - 1.));
    assert_eq!(Fast::new(2.) * Fast::new(1.), Fast::new(2. * 1.));
    assert_eq!(Fast::new(2.) / Fast::new(1.), Fast::new(2. / 1.));
    assert_eq!(Fast::new(2.) % Fast::new(1.), Fast::new(2. % 1.));
}

#[test]
fn assign_ops() {
    let mut x = Fast::new(1.);
    x += Fast::new(2.);
    assert_eq!(x, Fast::new(3.));

    let mut x = Fast::new(1.);
    x -= Fast::new(2.);
    assert_eq!(x, Fast::new(-1.));

    let mut x = Fast::new(2.);
    x *= Fast::new(2.);
    assert_eq!(x, Fast::new(4.));

    let mut x = Fast::new(2.);
    x /= Fast::new(2.);
    assert_eq!(x, Fast::new(1.));

    let mut x = Fast::new(5.);
    x %= Fast::new(2.);
    assert_eq!(x, Fast::new(1.));
}

#[test]
fn concrete_results() {
    assert_eq!(Fast::new(2.0) + Fast::new(1.0), Fast::new(3.0));
    assert_eq!(Fast::new(5.0) % Fast::new(2.0), Fast::new(1.0));
    assert_eq!(*(Fast::new(7.5f64) - Fast::new(0.25)), 7.25);
    assert_eq!(*(Fast::new(1.5f32) * Fast::new(4.0)), 6.0);
    assert_eq!(*(Fast::new(9.0f64) / Fast::new(4.0)), 2.25);
    assert_eq!(*(Fast::new(-7.0f64) % Fast::new(4.0)), -3.0);
}

#[test]
fn wrapped_results_agree_with_plain_arithmetic() {
    let values = [0.0f64, 1.0, -1.0, 0.5, 3.25, -17.75, 1024.0, 1e-3, 6.02e23];
    for &a in values.iter() {
        for &b in values.iter() {
            assert_eq!(*(Fast::new(a) + Fast::new(b)), a + b);
            assert_eq!(*(Fast::new(a) - Fast::new(b)), a - b);
            assert_eq!(*(Fast::new(a) * Fast::new(b)), a * b);
            if b != 0.0 {
                assert_eq!(*(Fast::new(a) / Fast::new(b)), a / b);
                assert_eq!(*(Fast::new(a) % Fast::new(b)), a % b);
            }
        }
    }
}

#[test]
fn wrapped_with_raw_right_operand() {
    assert_eq!(Fast::new(2.0f64) + 1.0, Fast::new(3.0));
    assert_eq!(Fast::new(2.0f64) - 1.0, Fast::new(1.0));
    assert_eq!(Fast::new(2.0f64) * 3.0, Fast::new(6.0));
    assert_eq!(Fast::new(3.0f64) / 2.0, Fast::new(1.5));
    assert_eq!(Fast::new(5.0f64) % 2.0, Fast::new(1.0));
    assert_eq!(Fast::new(2.0f32) + 1.0, Fast::new(3.0));
    assert_eq!(Fast::new(5.0f32) % 2.0, Fast::new(1.0));
}

#[test]
fn raw_left_operand() {
    assert_eq!(Fast::raw_add(2.0f64, Fast::new(1.0)), Fast::new(3.0));
    assert_eq!(Fast::raw_sub(2.0f64, Fast::new(5.0)), Fast::new(-3.0));
    assert_eq!(Fast::raw_mul(2.0f64, Fast::new(3.0)), Fast::new(6.0));
    assert_eq!(Fast::raw_div(3.0f64, Fast::new(2.0)), Fast::new(1.5));
    assert_eq!(Fast::raw_rem(5.0f64, Fast::new(2.0)), Fast::new(1.0));
    assert_eq!(Fast::raw_sub(1.0f32, Fast::new(4.0)), Fast::new(-3.0));
}

#[test]
fn three_shapes_agree() {
    let pairs = [(2.0f64, 1.0f64), (5.0, 2.0), (-3.5, 0.25), (1e10, 3.0), (0.1, 0.2)];
    for &(a, b) in pairs.iter() {
        let both = Fast::new(a) + Fast::new(b);
        assert!(Fast::new(a) + b == both);
        assert!(Fast::raw_add(a, Fast::new(b)) == both);

        let both = Fast::new(a) - Fast::new(b);
        assert!(Fast::new(a) - b == both);
        assert!(Fast::raw_sub(a, Fast::new(b)) == both);

        let both = Fast::new(a) * Fast::new(b);
        assert!(Fast::new(a) * b == both);
        assert!(Fast::raw_mul(a, Fast::new(b)) == both);

        let both = Fast::new(a) / Fast::new(b);
        assert!(Fast::new(a) / b == both);
        assert!(Fast::raw_div(a, Fast::new(b)) == both);

        let both = Fast::new(a) % Fast::new(b);
        assert!(Fast::new(a) % b == both);
        assert!(Fast::raw_rem(a, Fast::new(b)) == both);
    }
}

#[test]
fn operand_order_is_kept() {
    assert_eq!(*(Fast::new(1.0f64) - 4.0), -3.0);
    assert_eq!(*Fast::raw_sub(4.0f64, Fast::new(1.0)), 3.0);
    assert_eq!(*(Fast::new(1.0f64) / 4.0), 0.25);
    assert_eq!(*Fast::raw_div(4.0f64, Fast::new(1.0)), 4.0);
    assert_eq!(*(Fast::new(7.0f64) % 4.0), 3.0);
    assert_eq!(*Fast::raw_rem(4.0f64, Fast::new(7.0)), 4.0);
}

#[test]
fn assign_with_raw_right_operand() {
    let mut x = Fast::new(1.0f64);
    x += 2.0;
    assert_eq!(*x, 3.0);
    x -= 5.0;
    assert_eq!(*x, -2.0);
    x *= -4.0;
    assert_eq!(*x, 8.0);
    x /= 16.0;
    assert_eq!(*x, 0.5);
    x %= 0.125;
    assert_eq!(*x, 0.0);
}

#[test]
fn assign_equals_binary_operator() {
    let pairs = [(1.0f32, 2.0f32), (5.0, 2.0), (-3.5, 0.25), (100.0, 7.0)];
    for &(a, b) in pairs.iter() {
        let mut x = Fast::new(a);
        x += Fast::new(b);
        assert_eq!(x, Fast::new(a) + Fast::new(b));

        let mut x = Fast::new(a);
        x -= Fast::new(b);
        assert_eq!(x, Fast::new(a) - Fast::new(b));

        let mut x = Fast::new(a);
        x *= Fast::new(b);
        assert_eq!(x, Fast::new(a) * Fast::new(b));

        let mut x = Fast::new(a);
        x /= Fast::new(b);
        assert_eq!(x, Fast::new(a) / Fast::new(b));

        let mut x = Fast::new(a);
        x %= Fast::new(b);
        assert_eq!(x, Fast::new(a) % Fast::new(b));
    }
}

#[test]
fn chained_expression_stays_wrapped() {
    let xs = [1.0f64, 2.0, 3.0, 4.0];
    let ys = [0.5f64, 0.25, 2.0, -1.0];
    let mut sum = Fast::new(0.0f64);
    let mut dot = Fast::new(0.0f64);
    for i in 0..xs.len() {
        sum = sum + Fast::new(xs[i]);
        dot = dot + Fast::new(xs[i]) * Fast::new(ys[i]);
    }
    assert_eq!(*sum, 10.0);
    assert_eq!(*dot, 3.0);
}

#[test]
fn integer_scalars() {
    assert_eq!(*(Fast::new(7u32) + Fast::new(5u32)), 12);
    assert_eq!(*(Fast::new(7i64) - 9i64), -2);
    assert_eq!(*Fast::raw_mul(6u8, Fast::new(7u8)), 42);
    assert_eq!(*(Fast::new(17u64) / 5u64), 3);
    assert_eq!(*(Fast::new(17u64) % Fast::new(5u64)), 2);
    let mut x = Fast::new(10i32);
    x %= 4;
    assert_eq!(*x, 2);
}
