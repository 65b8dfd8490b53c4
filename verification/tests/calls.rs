use rust2go::{
    FriendsListRequest, FriendsListResponse, LoginRequest, LoginResponse, PMFriendRequest,
    PMFriendResponse, PreserveStructAttrsRequest, PreserveStructAttrsResponse, TestCall,
    TestCallImpl, User,
};

/// The service on the other side.
struct Service;

fn known(id: u32) -> bool {
    (1..=3).contains(&id)
}

impl TestCall for Service {
    fn ping(n: usize) -> usize {
        n
    }

    fn login(req: &LoginRequest) -> LoginResponse {
        let exists = req.user.id == 1 || req.user.name == "test";
        if !exists {
            return LoginResponse { succ: false, message: "user not exist".to_string(), token: vec![] };
        }
        if req.password != "test_psw" {
            return LoginResponse {
                succ: false,
                message: "invalid password".to_string(),
                token: vec![],
            };
        }
        LoginResponse { succ: true, message: "login success".to_string(), token: vec![6, 6, 6] }
    }

    fn logout(_req: &User) {}

    fn add_friends(req: &FriendsListRequest) -> FriendsListResponse {
        Self::delete_friends(req.clone())
    }

    fn delete_friends(req: FriendsListRequest) -> FriendsListResponse {
        let mut users: Vec<User> = Vec::new();
        if req.token == vec![6, 6, 6] {
            for id in req.user_ids {
                if known(id) && !users.iter().any(|u| u.id == id) {
                    users.push(User { id, name: format!("user{}", id), age: 20 });
                }
            }
        }
        FriendsListResponse { users }
    }

    fn pm_friend(req: PMFriendRequest) -> PMFriendResponse {
        let succ = req.token == vec![6, 6, 6] && known(req.user_id);
        PMFriendResponse { succ, message: String::new() }
    }

    fn multi_param_test(user: &User, message: &String, token: &Vec<u8>) -> LoginResponse {
        LoginResponse { succ: user.id == 1, message: message.clone(), token: token.clone() }
    }

    fn preserve_struct_attrs_test(
        data: &PreserveStructAttrsRequest,
    ) -> PreserveStructAttrsResponse {
        PreserveStructAttrsResponse { Success: data.UserId == 1 && data.UserName == "n" }
    }
}

#[test]
fn lib_echo() {
    assert_eq!(TestCallImpl::<Service>::ping(1995), 1995);
}

#[test]
fn ping_zero() {
    assert_eq!(TestCallImpl::<Service>::ping(0), 0);
}

#[test]
fn ping_max() {
    let max = usize::MAX;
    assert_eq!(TestCallImpl::<Service>::ping(max), max);
}

#[test]
fn main_echo() {
    assert_eq!(TestCallImpl::<Service>::ping(1995), 1995);
}

fn login(id: u32, name: &str, pass: &str) -> LoginResponse {
    TestCallImpl::<Service>::login(&LoginRequest {
        user: User { id, name: name.to_string(), age: 0 },
        password: pass.to_string(),
    })
    .unwrap()
}

#[test]
fn login_marshals_the_request_and_the_answer() {
    let r = login(1, "", "test_psw");
    assert!(r.succ);
    assert_eq!(r.message, "login success");
    assert!(!r.token.is_empty());

    let r = login(1, "", "wrong_psw");
    assert!(!r.succ);
    assert_eq!(r.message, "invalid password");
    assert!(r.token.is_empty());

    let r = login(0, "test", "test_psw");
    assert!(r.succ);
    let r = login(100, "", "");
    assert!(!r.succ);
    assert_eq!(r.message, "user not exist");
}

#[test]
fn logout_reaches_the_service() {
    assert!(TestCallImpl::<Service>::logout(&User { id: 1, name: String::new(), age: 0 }));
}

#[test]
fn field_names_are_kept() {
    let r = TestCallImpl::<Service>::preserve_struct_attrs_test(&PreserveStructAttrsRequest {
        UserId: 1,
        UserName: "n".to_string(),
    })
    .unwrap();
    assert!(r.Success);
}
