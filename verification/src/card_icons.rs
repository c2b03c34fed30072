//! Large text icons for cards, built from fixed templates in which every
//! `h` stands for the card's suit.

use vstd::prelude::*;
use vstd::string::StrSliceExecFns;
use vstd::string::StringExecFns;

use crate::cards::{suit_letter, suit_symbol, Card, CardFace, CardSuit};

verus! {

const CARD_ICON_10: &'static str = "\
10 	   

   h h   
  h h h  
  h h h  
   h h   

       10";

const CARD_ICON_9: &'static str = "\
9        

   h h   
   h h   
  h h h  
   h h   

        9";

const CARD_ICON_8: &'static str = "\
8        

   h h   
   h h   
   h h   
   h h   

        8";

const CARD_ICON_7: &'static str = "\
7        

   h h   
   h h   
    h    
   h h   

        7";

const CARD_ICON_6: &'static str = "\
6        

   h h   
   h h   
   h h   

         
        6";

const CARD_ICON_5: &'static str = "\
5        

   h h   
    h    
   h h   
         

        5";

const CARD_ICON_4: &'static str = "\
4        

   h h   
         
         
   h h   

        4";

const CARD_ICON_3: &'static str = "\
3        

    h    
    h    
    h    
         

        3";

const CARD_ICON_2: &'static str = "\
2        

    h    
         
         
    h    

        2";

const CARD_ICON_A: &'static str = "\
A        

         
    h    
         
         

        A";

const CARD_ICON_K: &'static str = "\
K        

   h h   
  h h h  
  h h h  
   h h   

        K";

const CARD_ICON_Q: &'static str = "\
Q        

   h h   
  h h h  
  h h h  
   h h   

        Q";

const CARD_ICON_J: &'static str = "\
J        

   h h   
  h h h  
  h h h  
   h h   

        J";

const CARD_ICON_FLIPPED_ASCII: &'static str = "

 /\\_/\\ 
(=^.^=)
(\") (\")_/
         

         ";

const CARD_ICON_FLIPPED: &'static str = "
 ♥ ♦ ♣ ♠ 
         
 /\\_/\\ 
(=^.^=)  
(\") (\")_/
 ♥ ♦ ♣ ♠ 

";

/// `s` with every occurrence of the character `pat` replaced by `with`.
pub open spec fn replaced(s: Seq<char>, pat: char, with: Seq<char>) -> Seq<char>
    decreases s.len(),
{
    if s.len() == 0 {
        Seq::empty()
    } else {
        replaced(s.drop_last(), pat, with) + (if s.last() == pat {
            with
        } else {
            seq![s.last()]
        })
    }
}

/// Builds a fresh string from `template`, replacing each `pat` by `with`.
fn replace_char(template: &str, pat: char, with: &str) -> (r: String)
    ensures
        r@ == replaced(template@, pat, with@),
{
    let mut out = String::new();
    let n = template.unicode_len();
    let mut i: usize = 0;
    while i < n
        invariant
            i <= n,
            n == template@.len(),
            out@ == replaced(template@.take(i as int), pat, with@),
        decreases n - i,
    {
        let c = template.get_char(i);
        if c == pat {
            out.append(with);
        } else {
            let piece = template.substring_char(i, i + 1);
            out.append(piece);
        }
        proof {
            assert(template@.take(i + 1).drop_last() =~= template@.take(i as int));
            assert(template@.take(i + 1).last() == template@[i as int]);
            if template@[i as int] != pat {
                assert(template@.subrange(i as int, i + 1) =~= seq![template@[i as int]]);
            }
        }
        i = i + 1;
    }
    proof {
        assert(template@.take(n as int) =~= template@);
    }
    out
}

/// The icon template for a face: the rank's big picture, or the face-down
/// template for a rank outside the card model.
pub closed spec fn icon_template(face: CardFace, ascii: bool) -> Seq<char> {
    match face {
        CardFace::Jack => CARD_ICON_J@,
        CardFace::King => CARD_ICON_K@,
        CardFace::Queen => CARD_ICON_Q@,
        CardFace::Ace => CARD_ICON_A@,
        CardFace::Number(v) => {
            if v == 10 {
                CARD_ICON_10@
            } else if v == 9 {
                CARD_ICON_9@
            } else if v == 8 {
                CARD_ICON_8@
            } else if v == 7 {
                CARD_ICON_7@
            } else if v == 6 {
                CARD_ICON_6@
            } else if v == 5 {
                CARD_ICON_5@
            } else if v == 4 {
                CARD_ICON_4@
            } else if v == 3 {
                CARD_ICON_3@
            } else if v == 2 {
                CARD_ICON_2@
            } else if ascii {
                CARD_ICON_FLIPPED_ASCII@
            } else {
                CARD_ICON_FLIPPED@
            }
        },
    }
}

/// The face-down icon.
pub closed spec fn flipped_template(ascii: bool) -> Seq<char> {
    if ascii {
        CARD_ICON_FLIPPED_ASCII@
    } else {
        CARD_ICON_FLIPPED@
    }
}

/// The text standing for a suit inside an icon: its letter in ASCII
/// output, else its symbol.
pub open spec fn suit_text(suit: CardSuit, ascii: bool) -> Seq<char> {
    if ascii {
        suit_letter(suit)
    } else {
        suit_symbol(suit)
    }
}

impl Card {
    /// The card drawn as a big text icon: the face's template with the
    /// suit written into each pip position.
    pub fn icon(&self, ascii: bool) -> (r: String)
        ensures
            r@ == replaced(icon_template(self.face, ascii), 'h', suit_text(self.suit, ascii)),
    {
        let template = match &self.face {
            CardFace::Jack => CARD_ICON_J,
            CardFace::King => CARD_ICON_K,
            CardFace::Queen => CARD_ICON_Q,
            CardFace::Ace => CARD_ICON_A,
            CardFace::Number(v) => match *v {
                10 => CARD_ICON_10,
                9 => CARD_ICON_9,
                8 => CARD_ICON_8,
                7 => CARD_ICON_7,
                6 => CARD_ICON_6,
                5 => CARD_ICON_5,
                4 => CARD_ICON_4,
                3 => CARD_ICON_3,
                2 => CARD_ICON_2,
                _ => {
                    if ascii {
                        CARD_ICON_FLIPPED_ASCII
                    } else {
                        CARD_ICON_FLIPPED
                    }
                },
            },
        };

        let suit_str = if ascii {
            self.suit.letter()
        } else {
            self.suit.symbol()
        };

        replace_char(template, 'h', suit_str)
    }

    /// The face-down icon shown for an undealt or hidden card.
    pub fn flipped_icon(ascii: bool) -> (r: &'static str)
        ensures
            r@ == flipped_template(ascii),
    {
        if ascii {
            CARD_ICON_FLIPPED_ASCII
        } else {
            CARD_ICON_FLIPPED
        }
    }
}

} // verus!
