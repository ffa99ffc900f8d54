//! The fixed text of the digest document, between the parts that vary.

use vstd::prelude::*;

verus! {

/// The document up to the date in its title.
pub const PAGE_OPEN: &'static str = "<!DOCTYPE html><html lang=\"en\"><head><meta charset=\"utf-8\">\
<meta name=\"viewport\" content=\"width=device-width, initial-scale=1.0\">\
<title>Hacker News Daily – ";

/// From the title to the date under the heading: the style sheet, and the script that
/// marks the index entry of the article in view, on a click and by observing which
/// article intersects the viewport.
pub const PAGE_STYLE_AND_SCRIPT: &'static str = "</title><style>body{font-family:Georgia,serif;margin:0;padding:0;\
display:flex;flex-direction:column;}h1{text-align:center;margin:0;\
padding:20px 0 10px 0;}.date{text-align:center;margin:0 0 20px 0;\
}.main-container{display:flex;flex:1;}.sidebar{position:sticky;\
top:0;width:240px;height:100vh;overflow-y:auto;background:#f8f8f8;\
padding:15px;box-sizing:border-box;border-right:1px solid #ddd;\
}.sidebar h2{text-align:center;margin-top:0;font-size:1.2em;\
}.story-index{padding-left:20px;margin:0;}.story-index li{margin-bottom:0.8em;\
font-size:0.85em;}.articles{flex:1;padding:20px;overflow-y:auto;\
box-sizing:border-box;}.article-container{max-width:700px;margin:0 auto;\
}.story{margin-bottom:1.5em;}.story h2{font-size:1.2em;margin:1em 0 .1em 0;\
}.meta{font-size:.8em;color:#555;margin:0 0 .5em 0;}.content{font-size:0.85em;\
margin-top:0.5em;}.domain{color:#888;font-size:0.9em;margin-bottom:0.3em;\
}.full-content{line-height:1.5;margin-top:1em;overflow-wrap:break-word;\
word-wrap:break-word;}.full-content p{margin:0.7em 0;}/* Improve content display */.full-content img{max-width:100%;\
height:auto;}.full-content pre, .full-content code{max-width:100%;\
overflow-x:auto;white-space:pre-wrap;background:#f5f5f5;padding:2px 4px;\
border-radius:3px;}.full-content table{max-width:100%;overflow-x:auto;\
border-collapse:collapse;}.full-content th, .full-content td{border:1px solid #ddd;\
padding:4px 8px;}.paywall-warning{color:#aa3300;font-style:italic;\
margin-bottom:0.3em;}.back-to-top{display:none;}hr{border:0;\
border-top:1px solid #ddd;margin:2em 0;}a{color:#000;text-decoration:none;\
}a:hover{text-decoration:underline;}a.active{font-weight:bold;\
color:#ff6600;background:#fff3e0;padding:2px 5px;border-radius:3px;\
margin-left:-5px;}@media print{.sidebar{display:none;} .articles{margin:0;\
max-width:none;} a{color:#000}}@media (max-width: 800px) {.main-container{flex-direction:column;\
} .sidebar{position:static;width:100%;height:auto;} .articles{padding:15px;\
}}</style><script>// Handle direct click navigation and sync with scroll position\n\
document.addEventListener(\"DOMContentLoaded\", function() {const articles = document.querySelectorAll(\".story\");\
const links = document.querySelectorAll(\".story-index a\");\
// Handle link clicks\n  \
links.forEach(link => {link.addEventListener(\"click\", function(e) {// Remove active class from all links\n      \
links.forEach(l => l.classList.remove(\"active\"));// Add active class to clicked link\n      \
this.classList.add(\"active\");});});// Use a better IntersectionObserver for scroll highlighting\n  \
const observerOptions = {root: null, // viewport\n    \
rootMargin: \"-100px 0px -300px 0px\", // top, right, bottom, left margins\n    \
threshold: 0.2 // 20% of the element should be visible\n  \
};let currentActiveLink = null;const observer = new IntersectionObserver((entries) => {entries.forEach(entry => {// When an article comes into view\n      \
if (entry.isIntersecting && entry.intersectionRatio >= 0.2) {const id = entry.target.id;\
const targetLink = document.querySelector(\".story-index a[href='#\" + id + \"']\");\
if (targetLink && targetLink !== currentActiveLink) {// Remove active class from all links\n          \
links.forEach(link => link.classList.remove(\"active\"));// Add active class to corresponding link\n          \
targetLink.classList.add(\"active\");currentActiveLink = targetLink;\
}}});}, observerOptions);// Observe all articles\n  \
articles.forEach(article => {observer.observe(article);});// Set the first item as active by default if we're at the top of the page\n  \
if (window.scrollY < 100 && links.length > 0) {links[0].classList.add(\"active\");\
currentActiveLink = links[0];}});</script></head><body><h1>Hacker News Daily</h1>\
<p class=\"date\">";

/// From the date under the heading to the index entries.
pub const PAGE_INDEX_OPEN: &'static str = "</p><div class=\"main-container\"><div class=\"sidebar\"><h2>\
Article Index</h2><ol class=\"story-index\">";

/// From the index entries to the article sections.
pub const PAGE_ARTICLES_OPEN: &'static str = "</ol></div><div class=\"articles\"><div class=\"article-container\">";

/// The document after the article sections.
pub const PAGE_CLOSE: &'static str = "</div></div></div></body></html>";

} // verus!
