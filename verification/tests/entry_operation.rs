use try_continue::TryContinue;

#[derive(PartialEq, Debug)]
struct TestError<'a>(&'a str);

#[test]
fn test_can_wrap_iterator() {
    let items = vec![1, 2, 3];
    let res = items
        .into_iter()
        .map(|x| -> Result<i32, TestError> { Ok(x) })
        .try_continue(|iter| iter.sum());

    assert_eq!(6, res.unwrap());
}

#[test]
fn test_bubbles_out_error() {
    let items = vec![1, 2, 3];
    let res = items
        .into_iter()
        .map(|_| -> Result<i32, TestError> { Err(TestError("oh no this is bad")) })
        .try_continue(|iter| iter.count());

    assert_eq!(TestError("oh no this is bad"), res.unwrap_err());
}

#[test]
fn test_bubbles_out_error_from_part_way() {
    let items = vec![1, 2, 3];
    let res: Result<i32, TestError> = items
        .into_iter()
        .enumerate()
        .map(|(i, x)| -> Result<i32, TestError> {
            if i == 1 {
                Err(TestError("oh no this is bad"))
            } else {
                Ok(x)
            }
        })
        .try_continue(|iter| {
            assert!(!iter.any(|n| n == 3));
            iter.sum()
        });

    assert_eq!(TestError("oh no this is bad"), res.unwrap_err());
}

#[test]
fn test_construction_allows_type_conversions() {
    let items = vec![1, 2, 3];
    let res = items
        .into_iter()
        .map(|x| -> Result<i32, TestError> { Ok(x) })
        // The closure's result type is free: here i32 items become a Vec<String>.
        .try_continue(|iter| iter.map(|x| x.to_string()).collect::<Vec<String>>());

    assert_eq!(
        vec!("1".to_string(), "2".to_string(), "3".to_string()),
        res.unwrap()
    );
}
