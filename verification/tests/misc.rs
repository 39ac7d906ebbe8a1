use mt_server::aggregate::NewsArticle;
use mt_server::aggregate::Pair;
use mt_server::aggregate::Summarizable;
use mt_server::aggregate::Tweet;
use mt_server::fn_values::add_one;
use mt_server::fn_values::do_twice;
use mt_server::fn_values::returns_closure;
use mt_server::generics::Point;
use mt_server::generics::largest;
use mt_server::graphs::Animal;
use mt_server::graphs::Dog;
use mt_server::gui::Button;
use mt_server::gui::Screen;
use mt_server::http::build_response;
use mt_server::http::plan_response;
use mt_server::lifetimes::ImportantExcerpt;
use mt_server::lifetimes::longest;
use mt_server::ownership::calculate_length;
use mt_server::ownership::change;
use mt_server::ownership::first_word;
use mt_server::ownership::gives_ownership;
use mt_server::parsing::Context;
use mt_server::parsing::parse_context;
use mt_server::shapes::Rectangle;
use mt_server::shapes::area;
use mt_server::smart_ptrs::List;
use mt_server::smart_ptrs::MyBox;
use mt_server::users::build_user;

#[test]
fn root_request_is_served_the_front_page() {
    let plan = plan_response("GET / HTTP/1.1\r\nHost: localhost\r\n\r\n");
    assert_eq!(plan.status_line, "HTTP/1.1 200 OK\r\n\r\n");
    assert_eq!(plan.filename, "hello.html");
    assert!(!plan.slow);
}

#[test]
fn sleep_request_is_served_slowly() {
    let plan = plan_response("GET /sleep HTTP/1.1\r\nHost: localhost\r\n\r\n");
    assert_eq!(plan.status_line, "HTTP/1.1 200 OK\r\n\r\n");
    assert_eq!(plan.filename, "hello.html");
    assert!(plan.slow);
}

#[test]
fn unknown_request_is_served_not_found() {
    let plan = plan_response("GET /missing HTTP/1.1\r\n");
    assert_eq!(plan.status_line, "HTTP/1.1 404 NOT FOUND\r\n\r\n");
    assert_eq!(plan.filename, "404.html");
    assert!(!plan.slow);
}

#[test]
fn response_is_status_line_then_body() {
    let response = build_response("HTTP/1.1 200 OK\r\n\r\n", "<html></html>");
    assert_eq!(response, "HTTP/1.1 200 OK\r\n\r\n<html></html>");
}

#[test]
fn summaries_wrap_the_author_line() {
    let tweet = Tweet {
        username: String::from("horse_ebooks"),
        content: String::from("of course, as you probably already know, people"),
        reply: false,
        retweet: false,
    };
    assert_eq!(tweet.author_summary(), "@horse_ebooks");
    assert_eq!(tweet.summary(), "(Read more from @horse_ebooks...)");

    let article = NewsArticle {
        headline: String::from("Penguins win the Stanley Cup Championship!"),
        location: String::from("Pittsburgh, PA, USA"),
        author: String::from("Iceburgh"),
        content: String::from("The Pittsburgh Penguins once again are the best hockey team in the NHL."),
    };
    assert_eq!(article.author_summary(), "Iceburgh");
    assert_eq!(article.summary(), "(Read more from Iceburgh...)");
}

#[test]
fn pairs_keep_their_members() {
    let pair = Pair::new(3, 8);
    assert_eq!(pair.x, 3);
    assert_eq!(pair.y, 8);
}

#[test]
fn screens_run_their_components() {
    let screen = Screen {
        components: vec![
            Button { width: 50, height: 10, label: String::from("OK") },
            Button { width: 75, height: 10, label: String::from("Cancel") },
        ],
    };
    screen.run();
}

#[test]
fn largest_finds_the_maximum() {
    let number_list = vec![34, 50, 25, 100, 65];
    assert_eq!(largest(&number_list), 100);
    let single = vec![7];
    assert_eq!(largest(&single), 7);
}

#[test]
fn mixup_crosses_the_coordinates() {
    let p1 = Point { x: 5, y: 10 };
    let p2 = Point { x: "Hello", y: 'c' };
    let p3 = p1.mixup(p2);
    assert_eq!(p3.x, 5);
    assert_eq!(p3.y, 'c');
}

#[test]
fn longest_prefers_the_longer_string() {
    assert_eq!(longest("abcd", "xyz"), "abcd");
    assert_eq!(longest("long string is long", "xyz"), "long string is long");
    assert_eq!(longest("ab", "xyz"), "xyz");
}

#[test]
fn excerpts_have_level_three() {
    let novel = String::from("Call me Ishmael. Some years ago...");
    let first_sentence = novel.split('.').next().expect("Could not find a '.'");
    let excerpt = ImportantExcerpt { part: first_sentence };
    assert_eq!(excerpt.level(), 3);
}

#[test]
fn ownership_helpers_behave() {
    assert_eq!(gives_ownership(), "hello");
    let s1 = String::from("hello");
    assert_eq!(calculate_length(&s1), 5);
    let mut s2 = String::from("hello");
    change(&mut s2);
    assert_eq!(s2, "hello, world");
}

#[test]
fn first_word_stops_at_the_first_space() {
    assert_eq!(first_word("hello world"), "hello");
    assert_eq!(first_word("hello"), "hello");
    assert_eq!(first_word(""), "");
    assert_eq!(first_word(" leading"), "");
}

#[test]
fn boxes_wrap_their_value() {
    let b = MyBox::new(5);
    assert_eq!(b.0, 5);
}

#[test]
fn cons_lists_expose_their_tail() {
    let list = List::Cons(1, Box::new(List::Cons(2, Box::new(List::Nil))));
    match list.tail() {
        Some(rest) => match rest.as_ref() {
            List::Cons(v, _) => assert_eq!(*v, 2),
            List::Nil => panic!("expected a second element"),
        },
        None => panic!("expected a tail"),
    }
    assert!(List::Nil.tail().is_none());
}

#[test]
fn function_values_compose() {
    assert_eq!(add_one(5), 6);
    assert_eq!(do_twice(add_one, 5), 12);
    let f = returns_closure();
    assert_eq!(f(1), 2);
}

#[test]
fn parsing_reports_the_rest_of_the_text() {
    let context = Context("hello");
    assert_eq!(parse_context(context), Err("ello"));
}

#[test]
fn baby_names_depend_on_who_is_asked() {
    assert_eq!(Dog::baby_name(), "Spot");
    assert_eq!(<Dog as Animal>::baby_name(), "puppy");
}

#[test]
fn rectangle_geometry() {
    let rect1 = Rectangle { length: 50, width: 30 };
    assert_eq!(rect1.area(), 1500);
    assert_eq!(area(&rect1), 1500);
    let rect2 = Rectangle { length: 40, width: 10 };
    let rect3 = Rectangle { length: 45, width: 60 };
    assert!(rect1.can_hold(&rect2));
    assert!(!rect1.can_hold(&rect3));
    let sq = Rectangle::square(3);
    assert_eq!(sq.length, 3);
    assert_eq!(sq.width, 3);
}

#[test]
fn built_users_start_active() {
    let user = build_user(String::from("someone@example.com"), String::from("someusername123"));
    assert_eq!(user.email, "someone@example.com");
    assert_eq!(user.username, "someusername123");
    assert!(user.active);
    assert_eq!(user.sign_in_count, 1);
}
