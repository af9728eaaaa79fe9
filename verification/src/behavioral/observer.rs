//! Observer: a news agency notifies every attached subscriber whenever
//! its news changes.

use vstd::prelude::*;

verus! {

/// The line a subscriber sees for a piece of news.
pub open spec fn update_line(name: Seq<char>, news: Seq<char>) -> Seq<char> {
    name + " получил новость: "@ + news
}

/// An observer: told the news, it reports what it saw.
pub trait Observer {
    /// The observer's name, which opens its line.
    spec fn spec_name(&self) -> Seq<char>;

    /// Takes one piece of news, returning the line this observer sees.
    fn update(&self, news: &str) -> (r: String)
        ensures
            r@ == update_line(self.spec_name(), news@),
    ;
}

/// A subscriber, known by name.
pub struct Subscriber {
    pub name: String,
}

impl Subscriber {
    pub fn new(name: &str) -> (s: Subscriber)
        ensures
            s.name@ == name@,
    {
        Subscriber { name: name.to_owned() }
    }
}

impl Observer for Subscriber {
    open spec fn spec_name(&self) -> Seq<char> {
        self.name@
    }

    fn update(&self, news: &str) -> (r: String) {
        let mut s = self.name.clone();
        s.append(" получил новость: ");
        s.append(news);
        s
    }
}

/// A subject: observers attach to it and are notified together.
pub trait Subject: Sized {
    /// The names of the attached observers, in attachment order.
    spec fn spec_observer_names(&self) -> Seq<Seq<char>>;

    /// The current news.
    spec fn spec_news(&self) -> Seq<char>;

    /// Attaches one more observer.
    fn attach(&mut self, observer: Subscriber)
        ensures
            final(self).spec_observer_names() == old(self).spec_observer_names().push(
                observer.name@,
            ),
            final(self).spec_news() == old(self).spec_news(),
    ;

    /// Detaching is not supported: the observer list is append-only,
    /// and the call changes nothing.
    fn detach(&mut self, _observer: &Subscriber)
        ensures
            *final(self) == *old(self),
    ;

    /// Notifies every observer of the current news, in attachment
    /// order, returning the line each one sees.
    fn notify(&self) -> (lines: Vec<String>)
        ensures
            lines@.len() == self.spec_observer_names().len(),
            forall|k: int|
                0 <= k < lines@.len() ==> (#[trigger] lines@[k])@ == update_line(
                    self.spec_observer_names()[k],
                    self.spec_news(),
                ),
    ;
}

/// The concrete subject: holds the current news and its subscribers.
pub struct NewsAgency {
    pub observers: Vec<Subscriber>,
    pub news: String,
}

impl NewsAgency {
    /// An agency with no news and no subscribers.
    pub fn new() -> (agency: NewsAgency)
        ensures
            agency.observers@ == Seq::<Subscriber>::empty(),
            agency.news@ == Seq::<char>::empty(),
    {
        let agency = NewsAgency { observers: Vec::new(), news: String::new() };
        proof {
            assert(agency.spec_observer_names() =~= Seq::<Seq<char>>::empty());
        }
        agency
    }

    /// Replaces the news and notifies every subscriber, returning the
    /// line each one sees.
    pub fn set_news(&mut self, news: &str) -> (lines: Vec<String>)
        ensures
            final(self).spec_news() == news@,
            final(self).spec_observer_names() == old(self).spec_observer_names(),
            lines@.len() == old(self).spec_observer_names().len(),
            forall|k: int|
                0 <= k < lines@.len() ==> (#[trigger] lines@[k])@ == update_line(
                    old(self).spec_observer_names()[k],
                    news@,
                ),
    {
        self.news = news.to_owned();
        self.notify()
    }

    /// The current news.
    pub fn get_news(&self) -> (r: &str)
        ensures
            r@ == self.spec_news(),
    {
        self.news.as_str()
    }
}

impl Subject for NewsAgency {
    open spec fn spec_observer_names(&self) -> Seq<Seq<char>> {
        self.observers@.map_values(|o: Subscriber| o.name@)
    }

    open spec fn spec_news(&self) -> Seq<char> {
        self.news@
    }

    fn attach(&mut self, observer: Subscriber) {
        self.observers.push(observer);
        proof {
            assert(self.spec_observer_names() =~= old(self).spec_observer_names().push(
                self.observers@.last().name@,
            ));
        }
    }

    fn detach(&mut self, _observer: &Subscriber) {
    }

    fn notify(&self) -> (lines: Vec<String>) {
        let mut lines: Vec<String> = Vec::new();
        let mut i: usize = 0;
        while i < self.observers.len()
            invariant
                i <= self.observers.len(),
                lines@.len() == i,
                forall|k: int|
                    0 <= k < i ==> (#[trigger] lines@[k])@ == update_line(
                        self.spec_observer_names()[k],
                        self.spec_news(),
                    ),
            decreases self.observers.len() - i,
        {
            let line = self.observers[i].update(self.news.as_str());
            lines.push(line);
            i += 1;
        }
        lines
    }
}

} // verus!
